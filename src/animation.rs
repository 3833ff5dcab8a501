use vstd::prelude::*;

verus! {

/// The frame that follows `index` in the looping range `first..=last` of a
/// sprite sheet: one past `index`, or back to `first` after `last`.
pub open spec fn frame_after(index: int, first: int, last: int) -> int {
    if index == last {
        first
    } else {
        index + 1
    }
}

/// Advances a sprite-sheet animation by one frame.
pub fn next_frame(index: usize, first: usize, last: usize) -> (r: usize)
    requires
        index == last || index < usize::MAX,
    ensures
        r == frame_after(index as int, first as int, last as int),
{
    if index == last {
        first
    } else {
        index + 1
    }
}

} // verus!
