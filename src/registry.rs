use vstd::prelude::*;

use crate::label::{labels_equal, main_label, main_window_label};
use crate::policy::{close_policy, close_propagation, Action, WindowEventKind};

verus! {

/// The open windows of an application, by label.
///
/// A label names at most one open window. Closing a window takes it out of
/// the registry at once: a window whose close has been requested is no
/// longer found by a lookup.
pub struct WindowRegistry {
    labels: Vec<String>,
}

/// The labels of the open windows after one window event has gone through
/// the close-propagation callback.
pub open spec fn after_event(open: Set<Seq<char>>, label: Seq<char>, event: WindowEventKind) -> Set<
    Seq<char>,
> {
    if close_policy(label, event, open.contains(main_label())) == Action::CloseMain {
        open.remove(main_label())
    } else {
        open
    }
}

impl WindowRegistry {
    /// The labels in the order in which their windows were opened.
    closed spec fn label_seq(&self) -> Seq<Seq<char>> {
        self.labels@.map_values(|s: String| s@)
    }

    /// No label occurs twice.
    pub closed spec fn wf(&self) -> bool {
        forall|i: int, j: int|
            0 <= i < j < self.label_seq().len() ==> self.label_seq()[i] != self.label_seq()[j]
    }

    /// A registry with no window.
    pub fn new() -> (r: WindowRegistry)
        ensures
            r.wf(),
            r@ == Set::<Seq<char>>::empty(),
    {
        let r = WindowRegistry { labels: Vec::new() };
        assert(r@ =~= Set::<Seq<char>>::empty());
        r
    }

    /// The position of the window with the given label, if one is open.
    fn find(&self, label: &str) -> (r: Option<usize>)
        ensures
            match r {
                Some(i) => i < self.labels@.len() && self.label_seq()[i as int] == label@,
                None => !self.label_seq().contains(label@),
            },
    {
        let mut i: usize = 0;
        while i < self.labels.len()
            invariant
                i <= self.labels@.len(),
                forall|k: int| 0 <= k < i ==> self.label_seq()[k] != label@,
            decreases self.labels@.len() - i,
        {
            if labels_equal(self.labels[i].as_str(), label) {
                return Some(i);
            }
            i = i + 1;
        }
        None
    }

    /// Whether a window with the given label is open.
    pub fn contains(&self, label: &str) -> (r: bool)
        ensures
            r == self@.contains(label@),
    {
        self.find(label).is_some()
    }

    /// Opens a window with the given label. A label that is already taken
    /// opens nothing and yields `false`.
    pub fn open_window(&mut self, label: &str) -> (added: bool)
        requires
            old(self).wf(),
        ensures
            final(self).wf(),
            added == !old(self)@.contains(label@),
            final(self)@ == old(self)@.insert(label@),
    {
        match self.find(label) {
            Some(_) => {
                assert(self@ =~= self@.insert(label@));
                false
            },
            None => {
                let ghost before = self.label_seq();
                self.labels.push(label.to_owned());
                assert(self.label_seq() =~= before.push(label@));
                assert forall|x: Seq<char>| #[trigger]
                    self@.contains(x) == old(self)@.insert(label@).contains(x) by {
                    if before.contains(x) {
                        let k = choose|k: int| 0 <= k < before.len() && before[k] == x;
                        assert(self.label_seq()[k] == x);
                    }
                    if x == label@ {
                        assert(self.label_seq()[before.len() as int] == x);
                    }
                }
                assert(self@ =~= old(self)@.insert(label@));
                true
            },
        }
    }

    /// Requests the closure of the window with the given label. Yields
    /// whether such a window was open; an absent window is left alone.
    pub fn request_close(&mut self, label: &str) -> (closed: bool)
        requires
            old(self).wf(),
        ensures
            final(self).wf(),
            closed == old(self)@.contains(label@),
            final(self)@ == old(self)@.remove(label@),
    {
        match self.find(label) {
            Some(i) => {
                let ghost before = self.label_seq();
                self.labels.remove(i);
                assert(self.label_seq() =~= before.remove(i as int));
                assert forall|x: Seq<char>| #[trigger]
                    self@.contains(x) == old(self)@.remove(label@).contains(x) by {
                    if before.contains(x) && x != label@ {
                        let k = choose|k: int| 0 <= k < before.len() && before[k] == x;
                        if k < i {
                            assert(self.label_seq()[k] == x);
                        } else {
                            assert(self.label_seq()[k - 1] == x);
                        }
                    }
                }
                assert(self@ =~= old(self)@.remove(label@));
                true
            },
            None => {
                assert(self@ =~= self@.remove(label@));
                false
            },
        }
    }
}

impl View for WindowRegistry {
    type V = Set<Seq<char>>;

    /// The labels of the open windows.
    closed spec fn view(&self) -> Set<Seq<char>> {
        Set::new(|l: Seq<char>| self.label_seq().contains(l))
    }
}

/// The window-event callback run against a registry: looks up the main
/// window, decides by the close-propagation rule, and requests the main
/// window's closure when the rule says so. It never fails, whatever the
/// registry holds.
pub fn on_window_event(registry: &mut WindowRegistry, label: &str, event: WindowEventKind) -> (a:
    Action)
    requires
        old(registry).wf(),
    ensures
        final(registry).wf(),
        a == close_policy(label@, event, old(registry)@.contains(main_label())),
        final(registry)@ == after_event(old(registry)@, label@, event),
{
    let main_open = registry.contains(main_window_label());
    let a = close_propagation(label, event, main_open);
    if a == Action::CloseMain {
        registry.request_close(main_window_label());
    }
    a
}

} // verus!
