//! Decisions behind the controls of a frameless desktop window.
//!
//! The shell that owns the window observes its state, asks this library what
//! to do, and carries the answer out. Nothing here touches a window itself.

pub mod lifecycle;
pub mod window;
