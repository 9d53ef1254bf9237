//! Counters that stop at the largest value instead of wrapping around.

use vstd::prelude::*;

verus! {

/// `count` and one more, at most the largest value.
pub open spec fn one_more(count: usize) -> usize {
    if count < usize::MAX {
        (count + 1) as usize
    } else {
        count
    }
}

/// The sum of two counts, at most the largest value.
pub open spec fn plus(a: usize, b: usize) -> usize {
    if a + b <= usize::MAX {
        (a + b) as usize
    } else {
        usize::MAX
    }
}

/// `count` and one more, at most the largest value.
pub fn bump(count: usize) -> (r: usize)
    ensures
        r == one_more(count),
{
    if count < usize::MAX {
        count + 1
    } else {
        count
    }
}

/// The sum of two counts, at most the largest value.
pub fn sum(a: usize, b: usize) -> (r: usize)
    ensures
        r == plus(a, b),
{
    if a <= usize::MAX - b {
        a + b
    } else {
        usize::MAX
    }
}

} // verus!
