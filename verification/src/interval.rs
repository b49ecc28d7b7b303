//! The polling interval, measured in whole milliseconds, and its conversion
//! to a count of fixed 100 ms delay slices.

use vstd::prelude::*;

verus! {

/// Length of one polling slice of the interruptible delay, in milliseconds.
pub const MILLIS_PER_SLICE: u64 = 100;

/// Number of whole slices that cover an interval of `ms` milliseconds,
/// rounded to the nearest slice (halves round up): `round(ms / 100)`.
pub open spec fn slice_count(ms: int) -> int {
    (ms + 50) / 100
}

/// Convert an interval given in milliseconds to its slice count.
pub fn slices_for_millis(ms: u64) -> (r: u64)
    requires
        ms + 50 <= u64::MAX,
    ensures
        r == slice_count(ms as int),
{
    (ms + 50) / 100
}

/// The slice count is the integer nearest to `ms / 100`: the covered delay
/// `100 * slice_count(ms)` differs from the requested interval by at most
/// half a slice.
pub proof fn lemma_slice_count_rounds(ms: int)
    requires
        0 <= ms,
    ensures
        100 * slice_count(ms) - 50 <= ms,
        ms <= 100 * slice_count(ms) + 49,
{
    let q = (ms + 50) / 100;
    let r = (ms + 50) % 100;
    vstd::arithmetic::div_mod::lemma_fundamental_div_mod(ms + 50, 100);
    assert(ms + 50 == 100 * q + r);
}

/// An interval of a whole number of deciseconds maps to exactly that many
/// slices: two seconds give twenty slices, with no rounding involved.
pub proof fn lemma_slice_count_exact(d: int)
    requires
        0 <= d,
    ensures
        slice_count(100 * d) == d,
{
    vstd::arithmetic::div_mod::lemma_div_multiples_vanish_fancy(d, 50, 100);
}

} // verus!
