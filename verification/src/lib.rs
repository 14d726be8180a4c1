//! Opening a path or URL with the program that Windows associates with it.
//!
//! The library decides which shell to use, how the command that opens a path
//! is spelled for that shell, and what the outcome of running it is answered
//! with. Running the processes is left to the caller.
//!
//! - `error`: the error type and its kinds.
//! - `shell`: the shells and their names.
//! - `command`: the commands that open a path through each shell.
//! - `detect`: the order in which shells are probed.
//! - `launch`: the answer given for each outcome of a launch.
//! - `wide`: the NUL-terminated UTF-16 form of a string for the Windows API.

pub mod command;
pub mod detect;
pub mod error;
pub mod launch;
pub mod shell;
pub mod wide;

pub use error::{Error, ErrorKind};
pub use shell::WindowsShell;
