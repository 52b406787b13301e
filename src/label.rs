use vstd::prelude::*;

verus! {

/// The label of the primary window.
pub open spec fn main_label() -> Seq<char> {
    seq!['m', 'a', 'i', 'n']
}

/// The label of the secondary window whose close request also closes the
/// primary window.
pub open spec fn control_label() -> Seq<char> {
    seq!['c', 'o', 'n', 't', 'r', 'o', 'l']
}

/// The label of the primary window, as a string.
pub fn main_window_label() -> (r: &'static str)
    ensures
        r@ == main_label(),
{
    proof {
        reveal_strlit("main");
    }
    assert("main"@ =~= main_label());
    "main"
}

/// The label of the control window, as a string.
pub fn control_window_label() -> (r: &'static str)
    ensures
        r@ == control_label(),
{
    proof {
        reveal_strlit("control");
    }
    assert("control"@ =~= control_label());
    "control"
}

/// Compares two window labels character by character.
pub fn labels_equal(a: &str, b: &str) -> (r: bool)
    ensures
        r == (a@ == b@),
{
    let n: usize = a.unicode_len();
    let m: usize = b.unicode_len();
    if n != m {
        return false;
    }
    let mut i: usize = 0;
    while i < n
        invariant
            n == a@.len(),
            m == b@.len(),
            n == m,
            i <= n,
            a@.subrange(0, i as int) == b@.subrange(0, i as int),
        decreases n - i,
    {
        if a.get_char(i) != b.get_char(i) {
            return false;
        }
        assert(a@.subrange(0, i + 1) =~= a@.subrange(0, i as int).push(a@[i as int]));
        assert(b@.subrange(0, i + 1) =~= b@.subrange(0, i as int).push(b@[i as int]));
        i = i + 1;
    }
    assert(a@ =~= a@.subrange(0, n as int));
    assert(b@ =~= b@.subrange(0, n as int));
    true
}

/// Whether a label names the control window.
pub fn is_control_label(label: &str) -> (r: bool)
    ensures
        r == (label@ == control_label()),
{
    labels_equal(label, control_window_label())
}

} // verus!
