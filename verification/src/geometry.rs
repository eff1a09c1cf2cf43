//! Screen rectangles.

use vstd::prelude::*;

verus! {

/// A screen rectangle: the position of its top-left corner and its size.
/// The window service works in signed pixel coordinates.
#[derive(Clone, Copy, PartialEq, Eq, Structural, Debug)]
pub struct Rect {
    pub left: i32,
    pub top: i32,
    pub width: i32,
    pub height: i32,
}

/// The rectangle an enumerated window is recorded under: its position
/// from the window service's outer frame, its size from the client area
/// (so synthetic moves never grow the frame).
pub fn merge_outer_client(outer: &Rect, client: &Rect) -> (r: Rect)
    ensures
        r == (Rect {
            left: outer.left,
            top: outer.top,
            width: client.width,
            height: client.height,
        }),
{
    Rect { left: outer.left, top: outer.top, width: client.width, height: client.height }
}

} // verus!
