//! Fixed canvas and box geometry, in pixels.
//!
//! The box is drawn at a fixed canvas position with no rotation; a host that
//! wants the box to visibly turn can pass the model's current heading to its
//! renderer as the rotation instead.

use vstd::prelude::*;

verus! {

/// Canvas width in pixels.
pub const SCREEN_WIDTH_PX: i32 = 1600;

/// Canvas height in pixels.
pub const SCREEN_HEIGHT_PX: i32 = 1600;

/// Width of the steerable box in pixels.
pub const BOX_WIDTH_PX: i32 = 100;

/// Length of the steerable box in pixels.
pub const BOX_LENGTH_PX: i32 = 200;

/// Length of the box's tip offset in pixels.
pub const BOX_TIP_LEN_PX: i32 = 20;

/// An axis-aligned rectangle: top-left corner, width and height, in pixels.
#[derive(Clone, Copy, Debug, PartialEq, Eq, Structural)]
pub struct PixelRect {
    pub x: i32,
    pub y: i32,
    pub w: i32,
    pub h: i32,
}

/// The rectangle of the steerable box, relative to its draw position: centred
/// horizontally, pushed down by the tip offset.
pub fn box_rect() -> (r: PixelRect)
    ensures
        r.x == -(BOX_WIDTH_PX as int) / 2,
        r.y == BOX_TIP_LEN_PX,
        r.w == BOX_WIDTH_PX,
        r.h == BOX_LENGTH_PX,
{
    PixelRect { x: 0 - BOX_WIDTH_PX / 2, y: BOX_TIP_LEN_PX, w: BOX_WIDTH_PX, h: BOX_LENGTH_PX }
}

/// The fixed canvas position, in pixels, at which the box is drawn.
pub fn draw_dest() -> (d: (i32, i32))
    ensures
        d.0 == 100,
        d.1 == 100,
{
    (100, 100)
}

} // verus!
