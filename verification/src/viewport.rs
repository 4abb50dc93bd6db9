//! The rectangle a view renders into: left, bottom, width, height.

use vstd::prelude::*;

verus! {

/// A render rectangle in window coordinates, matching the native layout of
/// four fields.
#[derive(Debug, Clone, Copy, PartialEq, Eq, Hash, Structural)]
pub struct Viewport {
    pub left: i32,
    pub bottom: i32,
    pub width: u32,
    pub height: u32,
}

impl Viewport {
    pub fn new(left: i32, bottom: i32, width: u32, height: u32) -> (r: Self)
        ensures
            r.left == left,
            r.bottom == bottom,
            r.width == width,
            r.height == height,
    {
        Viewport { left, bottom, width, height }
    }

    /// The first column right of the rectangle.
    pub fn right(&self) -> (r: i32)
        requires
            self.width <= i32::MAX,
            self.left + self.width <= i32::MAX,
        ensures
            r == self.left + self.width,
    {
        let width: i32 = self.width as i32;
        self.left + width
    }

    /// The first row above the rectangle.
    pub fn top(&self) -> (r: i32)
        requires
            self.height <= i32::MAX,
            self.bottom + self.height <= i32::MAX,
        ensures
            r == self.bottom + self.height,
    {
        let height: i32 = self.height as i32;
        self.bottom + height
    }
}

} // verus!
