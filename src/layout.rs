//! Placing a box in the middle of a frame.

use vstd::prelude::*;

verus! {

/// The margin on each side that centres a box of `size` cells in a frame of
/// `frame` cells: half the room left over, rounded down, or none where the
/// box does not fit.
pub fn centered_margin(frame: u16, size: u16) -> (r: u16)
    ensures
        r == if frame >= size {
            (frame - size) / 2
        } else {
            0
        },
        2 * r + size <= frame || r == 0,
{
    if frame >= size {
        (frame - size) / 2
    } else {
        0
    }
}

} // verus!
