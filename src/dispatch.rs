use vstd::prelude::*;
use vstd::string::*;
use crate::command::{occurs_in, unknown_command_text_names_it, CommandError, CommandResult, Value};
use crate::keyed::{lookup, position_of};
use crate::storage::KeyValueStore;
use crate::window::{begin_spec, toggle_call, HostCall, WindowStep};


verus! {

/// The handlers that a command name can be bound to.
#[derive(Clone, Copy, Debug, PartialEq, Eq)]
pub enum CommandKind {
    WindowControl,
    GetAppVersion,
    GetLocalStorageItem,
    SetLocalStorageItem,
    RemoveLocalStorageItem,
    CheckFileExists,
    CreateDirectory,
}

/// A registration that cannot stand: the name is already bound.
#[derive(Clone, Debug, PartialEq, Eq)]
pub enum RegisterError {
    Duplicate(String),
}

/// Work that only the host can do, asked for on a command's behalf.
#[derive(Clone, Debug, PartialEq, Eq)]
pub enum HostRequest {
    /// Report whether the window is maximized.
    WindowIsMaximized,
    /// Make this call on the window.
    Window(HostCall),
    /// Report whether anything exists at this path.
    PathExists(String),
    /// Create this directory and every missing ancestor.
    CreateDirectoryAll(String),
}

/// The host's answer to a `HostRequest`.
#[derive(Debug, PartialEq, Eq)]
pub enum HostReply {
    Maximized(Result<bool, String>),
    Done(Result<(), String>),
    Exists(bool),
}

/// Where a command stands after a dispatch or a resume.
#[derive(Clone, Debug, PartialEq, Eq)]
pub enum Step {
    /// The command is over; this goes back to the frontend.
    Reply(CommandResult),
    /// The host must do this, and hand its answer to `Dispatcher::resume`.
    Host(HostRequest),
}

/// The registry of command names, and the application version it reports.
#[derive(Clone, Debug)]
pub struct Dispatcher {
    commands: Vec<(String, CommandKind)>,
    version: String,
}

/// The handler of each command of the frontend's standard set.
pub open spec fn standard_handler(name: Seq<char>) -> Option<CommandKind> {
    if name == "windowControl"@ {
        Some(CommandKind::WindowControl)
    } else if name == "getAppVersion"@ {
        Some(CommandKind::GetAppVersion)
    } else if name == "getLocalStorageItem"@ {
        Some(CommandKind::GetLocalStorageItem)
    } else if name == "setLocalStorageItem"@ {
        Some(CommandKind::SetLocalStorageItem)
    } else if name == "removeLocalStorageItem"@ {
        Some(CommandKind::RemoveLocalStorageItem)
    } else if name == "checkFileExists"@ {
        Some(CommandKind::CheckFileExists)
    } else if name == "createDirectory"@ {
        Some(CommandKind::CreateDirectory)
    } else {
        None
    }
}

/// The dispatcher's view of a window controller step.
pub open spec fn window_step(s: WindowStep) -> Step {
    match s {
        WindowStep::QueryMaximized => Step::Host(HostRequest::WindowIsMaximized),
        WindowStep::Call(c) => Step::Host(HostRequest::Window(c)),
        WindowStep::Finished(res) => Step::Reply(res),
    }
}

/// `r` reports that the argument `name` was not given.
pub open spec fn is_missing(r: Step, name: Seq<char>) -> bool {
    match r {
        Step::Reply(CommandResult::Failure(CommandError::MissingArgument(n))) => n@ == name,
        _ => false,
    }
}

/// `r` is what a store write may answer: unit, or the store's own error.
pub open spec fn is_write_reply(r: Step) -> bool {
    r == Step::Reply(CommandResult::Success(Value::Unit)) || (match r {
        Step::Reply(CommandResult::Failure(CommandError::Host(_))) => true,
        _ => false,
    })
}

/// `found` is what a read of `key` from `entries` yields.
pub open spec fn read_of(entries: Map<Seq<char>, Seq<char>>, key: Seq<char>, found: Option<String>) -> bool {
    match found {
        Some(v) => entries.contains_key(key) && entries[key] == v@,
        None => !entries.contains_key(key),
    }
}

/// `reply` is the kind of answer that `pending` asks for.
pub open spec fn answers(pending: HostRequest, reply: HostReply) -> bool {
    match pending {
        HostRequest::WindowIsMaximized => reply is Maximized,
        HostRequest::Window(_) => reply is Done,
        HostRequest::PathExists(_) => reply is Exists,
        HostRequest::CreateDirectoryAll(_) => reply is Done,
    }
}

/// What a command becomes once the host has answered.
pub open spec fn resume_spec(pending: HostRequest, reply: HostReply) -> Step {
    match reply {
        HostReply::Maximized(Ok(maximized)) => Step::Host(HostRequest::Window(toggle_call(maximized))),
        HostReply::Maximized(Err(cause)) => Step::Reply(CommandResult::Failure(CommandError::Host(cause))),
        HostReply::Done(Ok(())) => Step::Reply(CommandResult::Success(Value::Unit)),
        HostReply::Done(Err(cause)) => Step::Reply(CommandResult::Failure(CommandError::Host(cause))),
        HostReply::Exists(found) => Step::Reply(CommandResult::Success(Value::Flag(found))),
    }
}

fn window_step_exec(s: WindowStep) -> (r: Step)
    ensures
        r == window_step(s),
{
    match s {
        WindowStep::QueryMaximized => Step::Host(HostRequest::WindowIsMaximized),
        WindowStep::Call(c) => Step::Host(HostRequest::Window(c)),
        WindowStep::Finished(res) => Step::Reply(res),
    }
}

/// The argument called `name`, or the error that it is missing.
fn argument(args: &Vec<(String, String)>, name: &str) -> (r: Result<String, Step>)
    ensures
        match lookup(args@, name@) {
            Some(v) => r == Ok::<String, Step>(v),
            None => r is Err && is_missing(r->Err_0, name@),
        },
{
    let key = String::from_str(name);
    match position_of(args, &key) {
        Some(i) => Ok(args[i].1.clone()),
        None => Err(Step::Reply(CommandResult::Failure(CommandError::MissingArgument(key)))),
    }
}

fn write_reply(outcome: Result<(), String>) -> (r: Step)
    ensures
        is_write_reply(r),
        outcome is Ok <==> r == Step::Reply(CommandResult::Success(Value::Unit)),
{
    match outcome {
        Ok(()) => Step::Reply(CommandResult::Success(Value::Unit)),
        Err(cause) => Step::Reply(CommandResult::Failure(CommandError::Host(cause))),
    }
}

impl Dispatcher {
    /// The handler bound to `name`, if any.
    pub closed spec fn handler(&self, name: Seq<char>) -> Option<CommandKind> {
        lookup(self.commands@, name)
    }

    /// The version that `getAppVersion` reports.
    pub closed spec fn version_text(&self) -> String {
        self.version
    }

    /// A dispatcher with no command registered.
    pub fn new(version: String) -> (r: Dispatcher)
        ensures
            forall|name: Seq<char>| #[trigger] r.handler(name) is None,
            r.version_text() == version,
    {
        Dispatcher { commands: Vec::new(), version }
    }

    /// A dispatcher with the frontend's standard set of commands registered.
    pub fn with_standard_commands(version: String) -> (r: Dispatcher)
        ensures
            forall|name: Seq<char>| #[trigger] r.handler(name) == standard_handler(name),
            r.version_text() == version,
    {
        let mut commands: Vec<(String, CommandKind)> = Vec::new();
        commands.push((String::from_str("createDirectory"), CommandKind::CreateDirectory));
        commands.push((String::from_str("checkFileExists"), CommandKind::CheckFileExists));
        commands.push(
            (String::from_str("removeLocalStorageItem"), CommandKind::RemoveLocalStorageItem),
        );
        commands.push((String::from_str("setLocalStorageItem"), CommandKind::SetLocalStorageItem));
        commands.push((String::from_str("getLocalStorageItem"), CommandKind::GetLocalStorageItem));
        commands.push((String::from_str("getAppVersion"), CommandKind::GetAppVersion));
        commands.push((String::from_str("windowControl"), CommandKind::WindowControl));
        let r = Dispatcher { commands, version };
        assert forall|name: Seq<char>| #[trigger] r.handler(name) == standard_handler(name) by {
            let s = r.commands@;
            assert(s.drop_last().drop_last().drop_last().drop_last().drop_last().drop_last().drop_last().len() == 0);
            reveal_with_fuel(lookup, 8);
        }
        r
    }

    /// Binds `name` to `kind`. A name that is already bound is refused and the
    /// registry is left as it was.
    pub fn register(&mut self, name: String, kind: CommandKind) -> (r: Result<(), RegisterError>)
        ensures
            final(self).version_text() == old(self).version_text(),
            r is Err <==> old(self).handler(name@) is Some,
            r is Err ==> r == Err::<(), RegisterError>(RegisterError::Duplicate(name))
                && *final(self) == *old(self),
            r is Ok ==> forall|q: Seq<char>|
                #[trigger] final(self).handler(q) == (if q == name@ {
                    Some(kind)
                } else {
                    old(self).handler(q)
                }),
    {
        match position_of(&self.commands, &name) {
            Some(_) => Err(RegisterError::Duplicate(name)),
            None => {
                let ghost before = self.commands@;
                self.commands.push((name, kind));
                assert(self.commands@.drop_last() =~= before);
                Ok(())
            },
        }
    }

    /// Routes the command `name` with its keyed `args`. An unknown name fails
    /// with an error that names it; a known one runs its handler, which either
    /// answers at once or asks the host for work (see `resume`).
    pub fn dispatch<S: KeyValueStore>(
        &self,
        store: &mut S,
        name: &String,
        args: &Vec<(String, String)>,
    ) -> (r: Step)
        ensures
            match self.handler(name@) {
                None => r == Step::Reply(
                    CommandResult::Failure(CommandError::UnknownCommand(*name)),
                ) && *final(store) == *old(store),
                Some(CommandKind::WindowControl) => *final(store) == *old(store) && match lookup(
                    args@,
                    "command"@,
                ) {
                    Some(word) => r == window_step(begin_spec(word@, word)),
                    None => is_missing(r, "command"@),
                },
                Some(CommandKind::GetAppVersion) => *final(store) == *old(store) && r
                    == Step::Reply(CommandResult::Success(Value::Text(self.version_text()))),
                Some(CommandKind::GetLocalStorageItem) => *final(store) == *old(store) && match lookup(
                    args@,
                    "key"@,
                ) {
                    Some(key) => match r {
                        Step::Reply(CommandResult::Success(Value::MaybeText(found))) => read_of(
                            old(store).entries(),
                            key@,
                            found,
                        ),
                        _ => false,
                    },
                    None => is_missing(r, "key"@),
                },
                Some(CommandKind::SetLocalStorageItem) => match (
                    lookup(args@, "key"@),
                    lookup(args@, "value"@),
                ) {
                    (Some(key), Some(value)) => {
                        &&& is_write_reply(r)
                        &&& !old(store).may_fail() ==> r == Step::Reply(
                            CommandResult::Success(Value::Unit),
                        )
                        &&& final(store).keeps_writes() == old(store).keeps_writes()
                        &&& final(store).may_fail() == old(store).may_fail()
                        &&& final(store).entries() == if r == Step::Reply(
                            CommandResult::Success(Value::Unit),
                        ) && old(store).keeps_writes() {
                            old(store).entries().insert(key@, value@)
                        } else {
                            old(store).entries()
                        }
                    },
                    (None, _) => is_missing(r, "key"@) && *final(store) == *old(store),
                    (Some(_), None) => is_missing(r, "value"@) && *final(store) == *old(store),
                },
                Some(CommandKind::RemoveLocalStorageItem) => match lookup(args@, "key"@) {
                    Some(key) => {
                        &&& is_write_reply(r)
                        &&& !old(store).may_fail() ==> r == Step::Reply(
                            CommandResult::Success(Value::Unit),
                        )
                        &&& final(store).keeps_writes() == old(store).keeps_writes()
                        &&& final(store).may_fail() == old(store).may_fail()
                        &&& final(store).entries() == if r == Step::Reply(
                            CommandResult::Success(Value::Unit),
                        ) {
                            old(store).entries().remove(key@)
                        } else {
                            old(store).entries()
                        }
                    },
                    None => is_missing(r, "key"@) && *final(store) == *old(store),
                },
                Some(CommandKind::CheckFileExists) => *final(store) == *old(store) && match lookup(
                    args@,
                    "path"@,
                ) {
                    Some(path) => r == Step::Host(HostRequest::PathExists(path)),
                    None => is_missing(r, "path"@),
                },
                Some(CommandKind::CreateDirectory) => *final(store) == *old(store) && match lookup(
                    args@,
                    "path"@,
                ) {
                    Some(path) => r == Step::Host(HostRequest::CreateDirectoryAll(path)),
                    None => is_missing(r, "path"@),
                },
            },
    {
        let kind = match position_of(&self.commands, name) {
            Some(i) => self.commands[i].1,
            None => {
                return Step::Reply(CommandResult::Failure(CommandError::UnknownCommand(name.clone())));
            },
        };
        match kind {
            CommandKind::WindowControl => match argument(args, "command") {
                Ok(word) => window_step_exec(WindowStep::begin(&word)),
                Err(missing) => missing,
            },
            CommandKind::GetAppVersion => Step::Reply(
                CommandResult::Success(Value::Text(self.version.clone())),
            ),
            CommandKind::GetLocalStorageItem => match argument(args, "key") {
                Ok(key) => Step::Reply(CommandResult::Success(Value::MaybeText(store.get(&key)))),
                Err(missing) => missing,
            },
            CommandKind::SetLocalStorageItem => {
                let key = match argument(args, "key") {
                    Ok(key) => key,
                    Err(missing) => {
                        return missing;
                    },
                };
                let value = match argument(args, "value") {
                    Ok(value) => value,
                    Err(missing) => {
                        return missing;
                    },
                };
                write_reply(store.set(&key, &value))
            },
            CommandKind::RemoveLocalStorageItem => match argument(args, "key") {
                Ok(key) => write_reply(store.remove(&key)),
                Err(missing) => missing,
            },
            CommandKind::CheckFileExists => match argument(args, "path") {
                Ok(path) => Step::Host(HostRequest::PathExists(path)),
                Err(missing) => missing,
            },
            CommandKind::CreateDirectory => match argument(args, "path") {
                Ok(path) => Step::Host(HostRequest::CreateDirectoryAll(path)),
                Err(missing) => missing,
            },
        }
    }

    /// Continues a command with the host's answer to the request it made.
    /// A missing path reads as absent; a host error ends the command with that
    /// error's text.
    pub fn resume(pending: &HostRequest, reply: HostReply) -> (r: Step)
        requires
            answers(*pending, reply),
        ensures
            r == resume_spec(*pending, reply),
    {
        match reply {
            HostReply::Maximized(answer) => window_step_exec(WindowStep::after_query(answer)),
            HostReply::Done(outcome) => Step::Reply(WindowStep::after_call(outcome)),
            HostReply::Exists(found) => Step::Reply(CommandResult::Success(Value::Flag(found))),
        }
    }

    /// Whether `reply` is the kind of answer that `pending` asks for, as
    /// `resume` requires.
    pub fn reply_fits(pending: &HostRequest, reply: &HostReply) -> (r: bool)
        ensures
            r == answers(*pending, *reply),
    {
        match pending {
            HostRequest::WindowIsMaximized => matches!(reply, HostReply::Maximized(_)),
            HostRequest::Window(_) => matches!(reply, HostReply::Done(_)),
            HostRequest::PathExists(_) => matches!(reply, HostReply::Exists(_)),
            HostRequest::CreateDirectoryAll(_) => matches!(reply, HostReply::Done(_)),
        }
    }
}

/// A name that no handler answers to is refused, and the failure that
/// `dispatch` returns for it carries the name verbatim in its text.
pub proof fn unregistered_name_is_named(d: Dispatcher, name: String)
    requires
        d.handler(name@) is None,
    ensures
        occurs_in(name@, CommandError::UnknownCommand(name).text()),
{
    unknown_command_text_names_it(name@);
}

} // verus!
