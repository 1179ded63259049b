//! IEEE 754 doubles read by their bit patterns: which patterns are numbers,
//! and how numbers are ordered.

use vstd::prelude::*;

verus! {

/// The pattern of -0.0: the sign bit alone.
pub const SIGN: u64 = 0x8000_0000_0000_0000;

/// The pattern of positive infinity, the largest magnitude of a number.
pub const INFINITY: u64 = 0x7FF0_0000_0000_0000;

/// The pattern without its sign bit.
pub open spec fn magnitude(bits: u64) -> int {
    if bits >= SIGN {
        bits - SIGN
    } else {
        bits as int
    }
}

/// Whether the pattern stands for a number, finite or infinite, and not for
/// a NaN.
pub open spec fn is_number(bits: u64) -> bool {
    magnitude(bits) <= INFINITY
}

/// The place of a number in the order of the doubles: numbers compare as
/// their ranks do, and the two zeros share the rank 0.
pub open spec fn rank(bits: u64) -> int {
    if bits >= SIGN {
        -magnitude(bits)
    } else {
        magnitude(bits)
    }
}

/// Whether `a > b` holds of the two doubles; it holds of no NaN.
pub open spec fn exceeds(a: u64, b: u64) -> bool {
    is_number(a) && is_number(b) && rank(a) > rank(b)
}

/// The larger of a double and a number `floor`, where a NaN counts as
/// missing: `bits` where it exceeds `floor`, else `floor`.
pub open spec fn raised_to(bits: u64, floor: u64) -> u64 {
    if exceeds(bits, floor) {
        bits
    } else {
        floor
    }
}

/// Raising to a number gives a number that the floor does not exceed.
pub proof fn lemma_raised_is_bounded(bits: u64, floor: u64)
    requires
        is_number(floor),
    ensures
        is_number(raised_to(bits, floor)),
        !exceeds(floor, raised_to(bits, floor)),
{
}

} // verus!
