//! The native side of a desktop shell's command bridge: named commands issued by
//! a webview frontend are routed to window control, versioning, a key-value
//! storage facade and small filesystem utilities, and answered with a result.
//!
//! Work that only the host can do (touching the window, the filesystem) is not
//! performed here: the dispatcher asks for it and is resumed with the host's
//! answer.

mod keyed;
pub mod command;
pub mod window;
pub mod storage;
pub mod dispatch;

pub use keyed::{lookup, position_of};
pub use command::{CommandError, CommandResult, Value};
pub use window::{HostCall, WindowCommand, WindowState, WindowStep};
pub use storage::{KeyValueStore, MemoryStore, NullStore};
pub use dispatch::{CommandKind, Dispatcher, HostReply, HostRequest, RegisterError, Step};
