//! Placement of the loading dialog: a fixed-size box centered in the
//! terminal area.

use vstd::prelude::*;

verus! {

/// A rectangle of terminal cells.
#[derive(Clone, Copy, Debug, PartialEq, Eq, Structural)]
pub struct Rect {
    pub x: u16,
    pub y: u16,
    pub width: u16,
    pub height: u16,
}

/// The rectangle of the loading dialog: 30 columns by 5 rows, centered in
/// `r` and always lying inside it.
pub fn calc_loading_dialog_rect(r: Rect) -> (d: Rect)
    requires
        r.width >= 30,
        r.height >= 5,
        r.x + r.width <= u16::MAX,
        r.y + r.height <= u16::MAX,
    ensures
        d.width == 30,
        d.height == 5,
        d.x == r.x + (r.width - 30) / 2,
        d.y == r.y + (r.height - 5) / 2,
        r.x <= d.x && d.x + d.width <= r.x + r.width,
        r.y <= d.y && d.y + d.height <= r.y + r.height,
{
    Rect {
        x: r.x + (r.width - 30) / 2,
        y: r.y + (r.height - 5) / 2,
        width: 30,
        height: 5,
    }
}

} // verus!
