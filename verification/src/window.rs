//! Windows of indices around a centre.

use std::ops::Range;
use vstd::prelude::*;

verus! {

/// The indices within `width` of `center` that lie from zero up to, and
/// without, `max`: from `center - width`, or from zero where that would be
/// negative, to `center + width`, or to `max` where that is less.
pub fn range(center: usize, width: usize, max: usize) -> (r: Range<usize>)
    requires
        center + width <= usize::MAX,
    ensures
        r.start == if center >= width {
            center - width
        } else {
            0
        },
        r.end == if center + width <= max {
            center + width
        } else {
            max as int
        },
{
    let min: usize = if center >= width {
        center - width
    } else {
        0
    };
    let sum: usize = center + width;
    let max: usize = if sum <= max {
        sum
    } else {
        max
    };
    min..max
}

} // verus!
