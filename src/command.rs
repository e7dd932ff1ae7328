use vstd::prelude::*;
use vstd::string::*;

verus! {

/// Why a command did not succeed.
#[derive(Clone, Debug, PartialEq, Eq)]
pub enum CommandError {
    /// No handler (or no sub-command) answers to this name.
    UnknownCommand(String),
    /// The command was issued without an argument it needs.
    MissingArgument(String),
    /// The host (window system, filesystem, backing store) reported an error.
    Host(String),
}

/// What a successful command hands back to the frontend.
#[derive(Clone, Debug, PartialEq, Eq)]
pub enum Value {
    Unit,
    Text(String),
    MaybeText(Option<String>),
    Flag(bool),
}

/// The outcome of one command: exactly one of a value or an error.
#[derive(Clone, Debug, PartialEq, Eq)]
pub enum CommandResult {
    Success(Value),
    Failure(CommandError),
}

/// The text shown for an unknown command name.
pub open spec fn unknown_command_text(name: Seq<char>) -> Seq<char> {
    "Unknown command: "@ + name
}

/// The text shown for a missing argument.
pub open spec fn missing_argument_text(name: Seq<char>) -> Seq<char> {
    "Missing argument: "@ + name
}

/// `part` occurs somewhere in `whole`.
pub open spec fn occurs_in(part: Seq<char>, whole: Seq<char>) -> bool {
    exists|i: int| 0 <= i <= whole.len() - part.len() && #[trigger] whole.subrange(i, i + part.len()) == part
}

impl CommandError {
    /// The human-readable text of this error.
    pub open spec fn text(&self) -> Seq<char> {
        match self {
            CommandError::UnknownCommand(name) => unknown_command_text(name@),
            CommandError::MissingArgument(name) => missing_argument_text(name@),
            CommandError::Host(cause) => cause@,
        }
    }

    /// Renders the error as the string that crosses to the frontend.
    pub fn message(&self) -> (r: String)
        ensures
            r@ == self.text(),
    {
        match self {
            CommandError::UnknownCommand(name) => {
                let mut s = String::from_str("Unknown command: ");
                s.append(name.as_str());
                s
            },
            CommandError::MissingArgument(name) => {
                let mut s = String::from_str("Missing argument: ");
                s.append(name.as_str());
                s
            },
            CommandError::Host(cause) => cause.clone(),
        }
    }
}

impl CommandResult {
    /// The result as it crosses to the frontend: the value, or the error's text.
    pub fn into_boundary(self) -> (r: Result<Value, String>)
        ensures
            match self {
                CommandResult::Success(v) => r == Ok::<Value, String>(v),
                CommandResult::Failure(e) => r is Err && r->Err_0@ == e.text(),
            },
    {
        match self {
            CommandResult::Success(v) => Ok(v),
            CommandResult::Failure(e) => Err(e.message()),
        }
    }
}

/// Every unknown-command error names, verbatim, the command that was asked for.
pub proof fn unknown_command_text_names_it(name: Seq<char>)
    ensures
        occurs_in(name, unknown_command_text(name)),
{
    let whole = unknown_command_text(name);
    let start = "Unknown command: "@.len() as int;
    assert(whole.subrange(start, start + name.len()) =~= name);
}

} // verus!
