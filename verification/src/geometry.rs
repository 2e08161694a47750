//! Plain geometric value types carried through the style model untouched:
//! offsets, bounds and corner radii.  Opacity composition never reads or
//! rewrites them, so they are simple copyable records.

use vstd::prelude::*;

verus! {

/// A 2D offset in physical pixels; shadow offsets may point in any
/// direction, so both components are signed.
#[derive(Clone, Copy, Debug, PartialEq, Eq, Structural, Default)]
pub struct Vector {
    pub x: i32,
    pub y: i32,
}

impl Vector {
    /// Builds an offset from its two components.
    pub fn new(x: i32, y: i32) -> (r: Self)
        ensures
            r.x == x,
            r.y == y,
    {
        Vector { x, y }
    }
}

/// An axis-aligned bounds rectangle in physical pixels, origin top-left.
#[derive(Clone, Copy, Debug, PartialEq, Eq, Structural)]
pub struct Rectangle {
    pub x: i32,
    pub y: i32,
    pub width: u32,
    pub height: u32,
}

/// Four independent corner radii of a rounded rectangle, in pixels.
#[derive(Clone, Copy, Debug, PartialEq, Eq, Structural, Default)]
pub struct Radius {
    pub top_left: u32,
    pub top_right: u32,
    pub bottom_right: u32,
    pub bottom_left: u32,
}

impl Radius {
    /// A uniform radius on all four corners.
    pub fn uniform(r: u32) -> (res: Self)
        ensures
            res.top_left == r,
            res.top_right == r,
            res.bottom_right == r,
            res.bottom_left == r,
    {
        Radius { top_left: r, top_right: r, bottom_right: r, bottom_left: r }
    }
}

} // verus!
