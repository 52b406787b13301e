use vstd::prelude::*;

use crate::label::{control_label, is_control_label};

verus! {

/// The kind of a window lifecycle notification, as far as the close policy
/// tells them apart.
#[derive(Clone, Copy, Debug, PartialEq, Eq, Structural)]
pub enum WindowEventKind {
    /// The user or the system asked to close the window; it is still open.
    CloseRequested,
    /// The window has been destroyed.
    Destroyed,
    /// The window gained or lost focus.
    Focused,
    /// The window was moved.
    Moved,
    /// The window was resized.
    Resized,
    /// Any other notification.
    Other,
}

/// What the window-event callback asks of the host.
#[derive(Clone, Copy, Debug, PartialEq, Eq, Structural)]
pub enum Action {
    /// Request the closure of the window labelled "main"; the request is not
    /// awaited and its outcome is discarded.
    CloseMain,
    /// Nothing: the event goes on to the host's default handling.
    Pass,
}

/// The close-propagation rule: a close request on the control window closes
/// the main window when, and only when, the main window is present.
pub open spec fn close_policy(label: Seq<char>, event: WindowEventKind, main_open: bool) -> Action {
    if label == control_label() && event == WindowEventKind::CloseRequested && main_open {
        Action::CloseMain
    } else {
        Action::Pass
    }
}

/// Decides what the callback does for one window event, given the event's
/// window label, its kind, and whether a window labelled "main" is present.
/// The event itself is never suppressed: the host's default handling always
/// follows.
pub fn close_propagation(label: &str, event: WindowEventKind, main_open: bool) -> (a: Action)
    ensures
        a == close_policy(label@, event, main_open),
        a == Action::CloseMain <==> (label@ == control_label()
            && event == WindowEventKind::CloseRequested && main_open),
{
    if main_open && event == WindowEventKind::CloseRequested && is_control_label(label) {
        Action::CloseMain
    } else {
        Action::Pass
    }
}

} // verus!
