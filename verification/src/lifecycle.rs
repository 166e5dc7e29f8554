//! How the shell starts up and how it ends.

use vstd::prelude::*;

verus! {

/// How much a logger lets through, from nothing at all to every record.
#[derive(Clone, Copy, Debug, PartialEq, Eq, Structural)]
pub enum LogLevel {
    /// Nothing is logged.
    Off,
    /// Errors only.
    Error,
    /// Warnings and what is more severe.
    Warn,
    /// Informational records and what is more severe.
    Info,
    /// Debugging records and what is more severe.
    Debug,
    /// Every record.
    Trace,
}

/// Decides the logging that the shell starts with. A debug build logs at
/// `Info`; any other build installs no logger at all.
pub fn log_level(debug_build: bool) -> (level: Option<LogLevel>)
    ensures
        debug_build ==> level == Some(LogLevel::Info),
        !debug_build ==> level is None,
{
    if debug_build {
        Some(LogLevel::Info)
    } else {
        None
    }
}

/// Decides the status with which the process ends when the user quits: zero,
/// since quitting is no failure.
pub fn close_app() -> (code: i32)
    ensures
        code == 0,
{
    0
}

} // verus!
