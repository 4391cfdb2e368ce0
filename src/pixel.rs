use vstd::prelude::*;

verus! {

/// The absolute difference of two channel samples, as an integer.
pub open spec fn abs_diff_spec(x: u8, y: u8) -> int {
    if x > y {
        x - y
    } else {
        y - x
    }
}

/// The absolute difference of two channel samples, computed in the unsigned
/// 8-bit domain without wrapping.
pub fn abs_diff(x: u8, y: u8) -> (r: u8)
    ensures
        r == abs_diff_spec(x, y),
        r == abs_diff_spec(y, x),
        x == y ==> r == 0,
{
    if x > y {
        return x - y;
    }
    y - x
}

/// The difference of two samples does not depend on their order, and a
/// sample differs from itself by nothing.
pub proof fn lemma_abs_diff_symmetric(x: u8, y: u8)
    ensures
        abs_diff_spec(x, y) == abs_diff_spec(y, x),
        abs_diff_spec(x, x) == 0,
        0 <= abs_diff_spec(x, y) <= 255,
{
}

} // verus!
