//! The geometry of cover-art crops: the largest centred square inside an
//! image of a given size.

use vstd::prelude::*;

verus! {

/// The top-left corner and side length of the largest centred square crop
/// of a `w` by `h` image.
pub fn center_square_rect(w: u32, h: u32) -> (r: (u32, u32, u32))
    ensures
        ({
            let (x, y, side) = r;
            &&& side == if w <= h {
                w
            } else {
                h
            }
            &&& x == (w - side) / 2
            &&& y == (h - side) / 2
        }),
{
    let side = if w <= h {
        w
    } else {
        h
    };
    let x = (w - side) / 2;
    let y = (h - side) / 2;
    (x, y, side)
}

} // verus!
