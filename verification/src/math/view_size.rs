//! The size of the rendered view, in whole device pixels.

use crate::fixed::FX_HALF;
use vstd::prelude::*;

verus! {

/// Width and height of the view in whole device pixels.
#[derive(Clone, Copy, Debug, PartialEq, Eq, Structural)]
pub struct ViewSize {
    pub width: u32,
    pub height: u32,
}

impl ViewSize {
    pub fn new(width: u32, height: u32) -> (vs: ViewSize)
        ensures
            vs.width == width,
            vs.height == height,
    {
        ViewSize { width, height }
    }

    /// Horizontal center as a fixed-point pixel coordinate.
    pub fn center_x(&self) -> (c: i64)
        ensures
            c == self.width * FX_HALF,
    {
        (self.width as i64) * FX_HALF
    }

    /// Vertical center as a fixed-point pixel coordinate.
    pub fn center_y(&self) -> (c: i64)
        ensures
            c == self.height * FX_HALF,
    {
        (self.height as i64) * FX_HALF
    }
}

} // verus!
