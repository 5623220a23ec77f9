//! Saturating counter arithmetic, as the engine's counters and indices use it.
use vstd::prelude::*;

verus! {

/// The smaller of two indices.
pub open spec fn min_index(a: usize, b: usize) -> usize {
    if a <= b {
        a
    } else {
        b
    }
}

/// `a + b`, held at `usize::MAX` where it would exceed it.
pub open spec fn saturating_sum(a: usize, b: usize) -> usize {
    if a + b > usize::MAX {
        usize::MAX
    } else {
        (a + b) as usize
    }
}

/// `a - b`, held at zero where it would go below it.
pub open spec fn saturating_diff(a: usize, b: usize) -> usize {
    if a < b {
        0
    } else {
        (a - b) as usize
    }
}

/// The smaller of two indices.
pub(crate) fn smaller(a: usize, b: usize) -> (r: usize)
    ensures
        r == min_index(a, b),
{
    if a <= b {
        a
    } else {
        b
    }
}

} // verus!
