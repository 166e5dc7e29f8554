//! The title-bar controls and what each of them asks of the window system.

use vstd::prelude::*;

verus! {

/// A request that the shell puts to the window system on behalf of a control.
#[derive(Clone, Copy, Debug, PartialEq, Eq, Structural)]
pub enum WindowAction {
    /// Shrink the window to the task bar.
    Minimize,
    /// Let the window fill the work area.
    Maximize,
    /// Give the window back the size it had before it was maximized.
    Unmaximize,
    /// Take the window off the screen and keep it alive.
    Hide,
}

impl WindowAction {
    /// The maximized state that the request asks for, where it asks for one.
    pub open spec fn requested_maximized(self) -> Option<bool> {
        match self {
            WindowAction::Maximize => Some(true),
            WindowAction::Unmaximize => Some(false),
            WindowAction::Minimize | WindowAction::Hide => None,
        }
    }
}

/// The request of the maximize control on a window that is seen to be
/// maximized or not: it restores a maximized window and maximizes any other.
pub open spec fn toggle_maximize(is_maximized: bool) -> WindowAction {
    if is_maximized {
        WindowAction::Unmaximize
    } else {
        WindowAction::Maximize
    }
}

/// Decides what the minimize control does: it always asks to minimize.
pub fn minimize_window() -> (action: WindowAction)
    ensures
        action == WindowAction::Minimize,
{
    WindowAction::Minimize
}

/// Decides what the maximize control does, given whether the window is
/// maximized at the moment.
pub fn maximize_window(is_maximized: bool) -> (action: WindowAction)
    ensures
        action == toggle_maximize(is_maximized),
{
    if is_maximized {
        WindowAction::Unmaximize
    } else {
        WindowAction::Maximize
    }
}

/// Decides what the close control does: the window is hidden, not destroyed,
/// so the application goes on running without it.
pub fn close_window() -> (action: WindowAction)
    ensures
        action == WindowAction::Hide,
{
    WindowAction::Hide
}

/// The maximize control always asks for the opposite of the state it saw.
pub proof fn lemma_toggle_asks_for_opposite(is_maximized: bool)
    ensures
        toggle_maximize(is_maximized).requested_maximized() == Some(!is_maximized),
{
}

/// Two presses of the maximize control undo each other: when the window
/// system grants what the first press asked for, the second press asks for
/// the state that the first one saw.
pub proof fn lemma_toggle_twice_restores(seen_first: bool, seen_second: bool)
    requires
        toggle_maximize(seen_first).requested_maximized() == Some(seen_second),
    ensures
        toggle_maximize(seen_second).requested_maximized() == Some(seen_first),
        toggle_maximize(seen_second) != toggle_maximize(seen_first),
{
}

} // verus!
