use vstd::prelude::*;

use crate::label::{control_label, main_label};
use crate::policy::{close_policy, Action, WindowEventKind};
use crate::registry::after_event;

verus! {

/// An event on any window but the control window issues no close request
/// and leaves every window as it was.
pub proof fn lemma_other_windows_untouched(
    open: Set<Seq<char>>,
    label: Seq<char>,
    event: WindowEventKind,
)
    requires
        label != control_label(),
    ensures
        close_policy(label, event, open.contains(main_label())) == Action::Pass,
        after_event(open, label, event) == open,
{
}

/// A close request on the control window issues a close request to the main
/// window if and only if a window labelled "main" is open at that moment.
pub proof fn lemma_close_issued_iff_main_open(open: Set<Seq<char>>)
    ensures
        (close_policy(control_label(), WindowEventKind::CloseRequested, open.contains(main_label()))
            == Action::CloseMain) <==> open.contains(main_label()),
        after_event(open, control_label(), WindowEventKind::CloseRequested) == open.remove(
            main_label(),
        ),
{
    if !open.contains(main_label()) {
        assert(open.remove(main_label()) =~= open);
    }
}

/// Running the callback twice on the same close request of the control
/// window issues at most one close request: the second run finds no main
/// window and changes nothing.
pub proof fn lemma_close_propagation_idempotent(open: Set<Seq<char>>)
    ensures
        ({
            let once = after_event(open, control_label(), WindowEventKind::CloseRequested);
            &&& close_policy(
                control_label(),
                WindowEventKind::CloseRequested,
                once.contains(main_label()),
            ) == Action::Pass
            &&& after_event(once, control_label(), WindowEventKind::CloseRequested) == once
        }),
{
}

} // verus!
