use vstd::prelude::*;
use vstd::string::*;
use crate::command::{CommandError, CommandResult, Value};

verus! {

/// The window-chrome vocabulary of the frontend.
#[derive(Clone, Copy, Debug, PartialEq, Eq)]
pub enum WindowCommand {
    Minimize,
    Maximize,
    Close,
}

/// A request made of the host window.
#[derive(Clone, Copy, Debug, PartialEq, Eq)]
pub enum HostCall {
    Minimize,
    Maximize,
    Unmaximize,
    Close,
}

/// The host window's maximized flag, seen as a state.
#[derive(Clone, Copy, Debug, PartialEq, Eq)]
pub enum WindowState {
    Normal,
    Maximized,
}

/// What the window controller needs next.
#[derive(Clone, Debug, PartialEq, Eq)]
pub enum WindowStep {
    /// Ask the host whether the window is maximized, then call `after_query`.
    QueryMaximized,
    /// Make this call on the host window, then call `after_call`.
    Call(HostCall),
    /// The command is over, with this result.
    Finished(CommandResult),
}

/// The sub-command that a command word names, if any.
pub open spec fn window_command_of(word: Seq<char>) -> Option<WindowCommand> {
    if word == "minimize"@ {
        Some(WindowCommand::Minimize)
    } else if word == "maximize"@ {
        Some(WindowCommand::Maximize)
    } else if word == "close"@ {
        Some(WindowCommand::Close)
    } else {
        None
    }
}

/// The call that the maximize toggle makes, given the current flag.
pub open spec fn toggle_call(maximized: bool) -> HostCall {
    if maximized {
        HostCall::Unmaximize
    } else {
        HostCall::Maximize
    }
}

impl WindowState {
    pub open spec fn is_maximized(self) -> bool {
        self == WindowState::Maximized
    }

    /// The state after the host has carried out `call`: only maximize and
    /// unmaximize move the flag.
    pub open spec fn after(self, call: HostCall) -> WindowState {
        match call {
            HostCall::Maximize => WindowState::Maximized,
            HostCall::Unmaximize => WindowState::Normal,
            _ => self,
        }
    }

    /// The state that results when the host carries out `call`.
    pub fn apply(self, call: HostCall) -> (r: WindowState)
        ensures
            r == self.after(call),
    {
        match call {
            HostCall::Maximize => WindowState::Maximized,
            HostCall::Unmaximize => WindowState::Normal,
            _ => self,
        }
    }
}

/// The first step of a window command given by its word.
pub open spec fn begin_spec(word: Seq<char>, original: String) -> WindowStep {
    match window_command_of(word) {
        Some(WindowCommand::Minimize) => WindowStep::Call(HostCall::Minimize),
        Some(WindowCommand::Maximize) => WindowStep::QueryMaximized,
        Some(WindowCommand::Close) => WindowStep::Call(HostCall::Close),
        None => WindowStep::Finished(
            CommandResult::Failure(CommandError::UnknownCommand(original)),
        ),
    }
}

fn is_word(s: &String, word: &str) -> (r: bool)
    ensures
        r == (s@ == word@),
{
    *s == String::from_str(word)
}

impl WindowCommand {
    /// Reads a command word; any word but the three known ones is an unknown command.
    pub fn parse(word: &String) -> (r: Result<WindowCommand, CommandError>)
        ensures
            match window_command_of(word@) {
                Some(c) => r == Ok::<WindowCommand, CommandError>(c),
                None => r == Err::<WindowCommand, CommandError>(
                    CommandError::UnknownCommand(*word),
                ),
            },
    {
        if is_word(word, "minimize") {
            Ok(WindowCommand::Minimize)
        } else if is_word(word, "maximize") {
            Ok(WindowCommand::Maximize)
        } else if is_word(word, "close") {
            Ok(WindowCommand::Close)
        } else {
            Err(CommandError::UnknownCommand(word.clone()))
        }
    }
}

impl WindowStep {
    /// Starts a window command. An unknown word ends it at once, with no host call.
    pub fn begin(word: &String) -> (r: WindowStep)
        ensures
            r == begin_spec(word@, *word),
    {
        match WindowCommand::parse(word) {
            Ok(WindowCommand::Minimize) => WindowStep::Call(HostCall::Minimize),
            Ok(WindowCommand::Maximize) => WindowStep::QueryMaximized,
            Ok(WindowCommand::Close) => WindowStep::Call(HostCall::Close),
            Err(e) => WindowStep::Finished(CommandResult::Failure(e)),
        }
    }

    /// Continues the maximize toggle with the host's answer to "is it maximized?".
    pub fn after_query(answer: Result<bool, String>) -> (r: WindowStep)
        ensures
            match answer {
                Ok(maximized) => r == WindowStep::Call(toggle_call(maximized)),
                Err(cause) => r == WindowStep::Finished(
                    CommandResult::Failure(CommandError::Host(cause)),
                ),
            },
    {
        match answer {
            Ok(true) => WindowStep::Call(HostCall::Unmaximize),
            Ok(false) => WindowStep::Call(HostCall::Maximize),
            Err(cause) => WindowStep::Finished(CommandResult::Failure(CommandError::Host(cause))),
        }
    }

    /// Ends a window command with the outcome of its host call.
    pub fn after_call(outcome: Result<(), String>) -> (r: CommandResult)
        ensures
            match outcome {
                Ok(()) => r == CommandResult::Success(Value::Unit),
                Err(cause) => r == CommandResult::Failure(CommandError::Host(cause)),
            },
    {
        match outcome {
            Ok(()) => CommandResult::Success(Value::Unit),
            Err(cause) => CommandResult::Failure(CommandError::Host(cause)),
        }
    }
}

/// Maximize is a toggle: two maximize commands in a row, each carried out by the
/// host, leave the window in the state it started in.
pub proof fn maximize_twice_restores(start: WindowState)
    ensures
        ({
            let once = start.after(toggle_call(start.is_maximized()));
            once.after(toggle_call(once.is_maximized())) == start
        }),
        start == WindowState::Normal ==> start.after(toggle_call(false))
            == WindowState::Maximized,
{
}

} // verus!
