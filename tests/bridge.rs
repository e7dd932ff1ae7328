use spectrum_ui::{
    CommandError, CommandKind, CommandResult, Dispatcher, HostCall, HostReply, HostRequest,
    KeyValueStore, MemoryStore, NullStore, RegisterError, Step, Value, WindowCommand, WindowState,
    WindowStep,
};

fn args(pairs: &[(&str, &str)]) -> Vec<(String, String)> {
    pairs.iter().map(|(k, v)| (k.to_string(), v.to_string())).collect()
}

fn standard() -> Dispatcher {
    Dispatcher::with_standard_commands("1.2.3".to_string())
}

fn unit() -> Step {
    Step::Reply(CommandResult::Success(Value::Unit))
}

#[test]
fn unknown_command_name_fails_with_its_name() {
    let d = standard();
    let mut store = NullStore::new();
    for name in ["openDevTools", "", "windowcontrol", "window_control", "Ünïcode ✓"] {
        let r = d.dispatch(&mut store, &name.to_string(), &args(&[]));
        let expected =
            Step::Reply(CommandResult::Failure(CommandError::UnknownCommand(name.to_string())));
        assert_eq!(r, expected);
        let message = CommandError::UnknownCommand(name.to_string()).message();
        assert!(message.contains(name));
        assert_eq!(message, format!("Unknown command: {}", name));
    }
}

#[test]
fn empty_dispatcher_knows_no_command() {
    let d = Dispatcher::new("0.1.0".to_string());
    let mut store = NullStore::new();
    let r = d.dispatch(&mut store, &"getAppVersion".to_string(), &args(&[]));
    assert_eq!(
        r,
        Step::Reply(CommandResult::Failure(CommandError::UnknownCommand(
            "getAppVersion".to_string()
        )))
    );
}

#[test]
fn duplicate_registration_is_refused() {
    let mut d = Dispatcher::new("0.1.0".to_string());
    assert_eq!(d.register("ping".to_string(), CommandKind::GetAppVersion), Ok(()));
    assert_eq!(
        d.register("ping".to_string(), CommandKind::CheckFileExists),
        Err(RegisterError::Duplicate("ping".to_string()))
    );
    let mut store = NullStore::new();
    let r = d.dispatch(&mut store, &"ping".to_string(), &args(&[]));
    assert_eq!(r, Step::Reply(CommandResult::Success(Value::Text("0.1.0".to_string()))));
}

#[test]
fn app_version_is_reported() {
    let d = standard();
    let mut store = NullStore::new();
    let r = d.dispatch(&mut store, &"getAppVersion".to_string(), &args(&[]));
    assert_eq!(r, Step::Reply(CommandResult::Success(Value::Text("1.2.3".to_string()))));
}

#[test]
fn maximize_twice_from_normal_returns_to_normal() {
    let d = standard();
    let mut store = NullStore::new();
    let mut state = WindowState::Normal;
    for _ in 0..2 {
        let first = d.dispatch(&mut store, &"windowControl".to_string(), &args(&[("command", "maximize")]));
        assert_eq!(first, Step::Host(HostRequest::WindowIsMaximized));
        let answer = HostReply::Maximized(Ok(state == WindowState::Maximized));
        let second = Dispatcher::resume(&HostRequest::WindowIsMaximized, answer);
        let call = match second {
            Step::Host(HostRequest::Window(call)) => call,
            other => panic!("unexpected step {:?}", other),
        };
        state = state.apply(call);
        let done = Dispatcher::resume(&HostRequest::Window(call), HostReply::Done(Ok(())));
        assert_eq!(done, unit());
        if state == WindowState::Maximized {
            assert_eq!(call, HostCall::Maximize);
        }
    }
    assert_eq!(state, WindowState::Normal);
}

#[test]
fn maximize_toggle_picks_the_call_from_the_flag() {
    assert_eq!(WindowStep::after_query(Ok(true)), WindowStep::Call(HostCall::Unmaximize));
    assert_eq!(WindowStep::after_query(Ok(false)), WindowStep::Call(HostCall::Maximize));
    assert_eq!(
        WindowStep::after_query(Err("window gone".to_string())),
        WindowStep::Finished(CommandResult::Failure(CommandError::Host("window gone".to_string())))
    );
}

#[test]
fn minimize_keeps_the_maximized_flag() {
    assert_eq!(WindowState::Maximized.apply(HostCall::Minimize), WindowState::Maximized);
    assert_eq!(WindowState::Normal.apply(HostCall::Minimize), WindowState::Normal);
    assert_eq!(WindowStep::begin(&"minimize".to_string()), WindowStep::Call(HostCall::Minimize));
}

#[test]
fn close_on_maximized_window_calls_close_once() {
    let d = standard();
    let mut store = NullStore::new();
    let state = WindowState::Maximized;
    let first = d.dispatch(&mut store, &"windowControl".to_string(), &args(&[("command", "close")]));
    assert_eq!(first, Step::Host(HostRequest::Window(HostCall::Close)));
    assert_eq!(state.apply(HostCall::Close), WindowState::Maximized);
    let done = Dispatcher::resume(&HostRequest::Window(HostCall::Close), HostReply::Done(Ok(())));
    assert_eq!(done, unit());
}

#[test]
fn unknown_window_command_fails_without_host_call() {
    let d = standard();
    let mut store = NullStore::new();
    let r = d.dispatch(&mut store, &"windowControl".to_string(), &args(&[("command", "fullscreen")]));
    let expected =
        Step::Reply(CommandResult::Failure(CommandError::UnknownCommand("fullscreen".to_string())));
    assert_eq!(r, expected);
    assert_eq!(
        WindowCommand::parse(&"fullscreen".to_string()),
        Err(CommandError::UnknownCommand("fullscreen".to_string()))
    );
    assert_eq!(WindowCommand::parse(&"maximize".to_string()), Ok(WindowCommand::Maximize));
    let text = CommandError::UnknownCommand("fullscreen".to_string()).message();
    assert_eq!(text, "Unknown command: fullscreen");
}

#[test]
fn host_failure_is_passed_on() {
    let r = Dispatcher::resume(
        &HostRequest::Window(HostCall::Minimize),
        HostReply::Done(Err("invalid window handle".to_string())),
    );
    assert_eq!(
        r,
        Step::Reply(CommandResult::Failure(CommandError::Host("invalid window handle".to_string())))
    );
    let q = Dispatcher::resume(
        &HostRequest::WindowIsMaximized,
        HostReply::Maximized(Err("no window".to_string())),
    );
    assert_eq!(q, Step::Reply(CommandResult::Failure(CommandError::Host("no window".to_string()))));
}

#[test]
fn missing_argument_is_reported() {
    let d = standard();
    let mut store = MemoryStore::new();
    let r = d.dispatch(&mut store, &"setLocalStorageItem".to_string(), &args(&[("key", "k")]));
    assert_eq!(
        r,
        Step::Reply(CommandResult::Failure(CommandError::MissingArgument("value".to_string())))
    );
    assert_eq!(store.get(&"k".to_string()), None);
    let w = d.dispatch(&mut store, &"windowControl".to_string(), &args(&[]));
    assert_eq!(
        w,
        Step::Reply(CommandResult::Failure(CommandError::MissingArgument("command".to_string())))
    );
    assert_eq!(
        CommandError::MissingArgument("path".to_string()).message(),
        "Missing argument: path"
    );
}

#[test]
fn memory_store_reads_back_what_was_set() {
    let d = standard();
    let mut store = MemoryStore::new();
    let set = d.dispatch(
        &mut store,
        &"setLocalStorageItem".to_string(),
        &args(&[("key", "theme"), ("value", "dark")]),
    );
    assert_eq!(set, unit());
    let get = d.dispatch(&mut store, &"getLocalStorageItem".to_string(), &args(&[("key", "theme")]));
    assert_eq!(get, Step::Reply(CommandResult::Success(Value::MaybeText(Some("dark".to_string())))));
    assert_eq!(store.set(&"theme".to_string(), &"light".to_string()), Ok(()));
    assert_eq!(store.get(&"theme".to_string()), Some("light".to_string()));
    assert_eq!(store.get(&"other".to_string()), None);
}

#[test]
fn memory_store_set_twice_is_set_once() {
    let mut store = MemoryStore::new();
    assert_eq!(store.set(&"a".to_string(), &"1".to_string()), Ok(()));
    assert_eq!(store.set(&"a".to_string(), &"1".to_string()), Ok(()));
    assert_eq!(store.get(&"a".to_string()), Some("1".to_string()));
    assert_eq!(store.remove(&"a".to_string()), Ok(()));
    assert_eq!(store.get(&"a".to_string()), None);
}

#[test]
fn null_store_returns_absent_for_every_key() {
    let d = standard();
    let mut store = NullStore::new();
    for key in ["theme", "", "a key with spaces"] {
        let set = d.dispatch(
            &mut store,
            &"setLocalStorageItem".to_string(),
            &args(&[("key", key), ("value", "v")]),
        );
        assert_eq!(set, unit());
        let get = d.dispatch(&mut store, &"getLocalStorageItem".to_string(), &args(&[("key", key)]));
        assert_eq!(get, Step::Reply(CommandResult::Success(Value::MaybeText(None))));
        assert_eq!(store.get(&key.to_string()), None);
    }
}

#[test]
fn removing_a_key_never_set_succeeds() {
    let d = standard();
    let mut null = NullStore::new();
    let mut memory = MemoryStore::new();
    let a = args(&[("key", "never-set")]);
    let name = "removeLocalStorageItem".to_string();
    assert_eq!(d.dispatch(&mut null, &name, &a), unit());
    assert_eq!(d.dispatch(&mut memory, &name, &a), unit());
    assert_eq!(memory.get(&"never-set".to_string()), None);
}

#[test]
fn filesystem_commands_ask_the_host() {
    let d = standard();
    let mut store = NullStore::new();
    let exists = d.dispatch(&mut store, &"checkFileExists".to_string(), &args(&[("path", "/tmp/x")]));
    assert_eq!(exists, Step::Host(HostRequest::PathExists("/tmp/x".to_string())));
    let r = Dispatcher::resume(&HostRequest::PathExists("/tmp/x".to_string()), HostReply::Exists(true));
    assert_eq!(r, Step::Reply(CommandResult::Success(Value::Flag(true))));
    let create = d.dispatch(&mut store, &"createDirectory".to_string(), &args(&[("path", "/tmp/x/y")]));
    let request = HostRequest::CreateDirectoryAll("/tmp/x/y".to_string());
    assert_eq!(create, Step::Host(request.clone()));
    assert_eq!(Dispatcher::resume(&request, HostReply::Done(Ok(()))), unit());
    assert_eq!(Dispatcher::resume(&request, HostReply::Done(Ok(()))), unit());
}

#[test]
fn directory_creation_failure_carries_the_os_message() {
    let request = HostRequest::CreateDirectoryAll("/etc/passwd/sub".to_string());
    let r = Dispatcher::resume(&request, HostReply::Done(Err("Not a directory (os error 20)".to_string())));
    match r {
        Step::Reply(CommandResult::Failure(e)) => {
            let text = e.message();
            assert!(!text.is_empty());
            assert_eq!(text, "Not a directory (os error 20)");
        }
        other => panic!("unexpected step {:?}", other),
    }
}

#[test]
fn replies_must_fit_their_request() {
    assert!(Dispatcher::reply_fits(&HostRequest::WindowIsMaximized, &HostReply::Maximized(Ok(true))));
    assert!(!Dispatcher::reply_fits(&HostRequest::WindowIsMaximized, &HostReply::Done(Ok(()))));
    assert!(Dispatcher::reply_fits(&HostRequest::PathExists("p".to_string()), &HostReply::Exists(false)));
    assert!(!Dispatcher::reply_fits(&HostRequest::Window(HostCall::Close), &HostReply::Exists(false)));
}

#[test]
fn results_cross_the_boundary_as_value_or_text() {
    assert_eq!(CommandResult::Success(Value::Flag(false)).into_boundary(), Ok(Value::Flag(false)));
    assert_eq!(
        CommandResult::Failure(CommandError::UnknownCommand("x".to_string())).into_boundary(),
        Err("Unknown command: x".to_string())
    );
}

#[test]
fn position_of_finds_the_last_entry() {
    let entries = vec![
        ("a".to_string(), 1u32),
        ("b".to_string(), 2u32),
        ("a".to_string(), 3u32),
    ];
    assert_eq!(spectrum_ui::position_of(&entries, &"a".to_string()), Some(2));
    assert_eq!(spectrum_ui::position_of(&entries, &"b".to_string()), Some(1));
    assert_eq!(spectrum_ui::position_of(&entries, &"c".to_string()), None);
}
