//! The transport side: timing, retry decisions and message framing.

pub mod io_error;
pub mod ipc_commands;
pub mod ipc_unix_socket;
pub mod retry;
pub mod span;
pub mod wire;
