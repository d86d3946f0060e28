//! An axis-aligned rectangle over fixed-point coordinates.

use crate::fixed::{i64_tdiv, lemma_tdiv_magnitude, tdiv, FX_ONE};
use crate::math::position::Position;
use crate::math::view_size::ViewSize;
use vstd::prelude::*;

verus! {

/// An axis-aligned rectangle: origin corner plus extent, in fixed-point
/// units.
#[derive(Clone, Copy, Debug)]
pub struct Rect {
    pub x: i64,
    pub y: i64,
    pub width: i64,
    pub height: i64,
    pub origin: Position,
    pub size: (i64, i64),
}

impl Rect {
    /// A rectangle of the given extent centered inside the view.
    pub fn new(width: i64, height: i64, center_to: ViewSize) -> (r: Rect)
        requires
            i64::MIN <= center_to.width * FX_ONE - width <= i64::MAX,
            i64::MIN <= center_to.height * FX_ONE - height <= i64::MAX,
        ensures
            r.x == tdiv(center_to.width * FX_ONE - width, 2),
            r.y == tdiv(center_to.height * FX_ONE - height, 2),
            r.width == width,
            r.height == height,
            r.origin == (Position { x: r.x, y: r.y }),
            r.size == (width, height),
    {
        let dx: i64 = (center_to.width as i64) * FX_ONE - width;
        let dy: i64 = (center_to.height as i64) * FX_ONE - height;
        proof {
            lemma_tdiv_magnitude(dx as int, 2);
            lemma_tdiv_magnitude(dy as int, 2);
        }
        let x: i64 = i64_tdiv(dx, 2);
        let y: i64 = i64_tdiv(dy, 2);
        Rect { x, y, width, height, origin: Position { x, y }, size: (width, height) }
    }

    /// The unit rectangle at the origin.
    pub fn get_standard_new() -> (r: Rect)
        ensures
            r.x == 0,
            r.y == 0,
            r.width == FX_ONE,
            r.height == FX_ONE,
            r.origin == (Position { x: 0, y: 0 }),
            r.size == (FX_ONE as i64, FX_ONE as i64),
    {
        Rect {
            x: 0,
            y: 0,
            width: FX_ONE,
            height: FX_ONE,
            origin: Position { x: 0, y: 0 },
            size: (FX_ONE, FX_ONE),
        }
    }

    pub fn from_origin_n_size(x: i64, y: i64, width: i64, height: i64) -> (r: Rect)
        ensures
            r.x == x,
            r.y == y,
            r.width == width,
            r.height == height,
            r.origin == (Position { x, y }),
            r.size == (width, height),
    {
        Rect { x, y, width, height, origin: Position { x, y }, size: (width, height) }
    }

    /// The empty rectangle at the origin.
    pub fn zero() -> (r: Rect)
        ensures
            r.x == 0,
            r.y == 0,
            r.width == 0,
            r.height == 0,
            r.origin == (Position { x: 0, y: 0 }),
            r.size == (0i64, 0i64),
    {
        Rect { x: 0, y: 0, width: 0, height: 0, origin: Position { x: 0, y: 0 }, size: (0, 0) }
    }

    /// Half the width, rounded toward zero.
    pub fn center_x(&self) -> (c: i64)
        ensures
            c == tdiv(self.width as int, 2),
    {
        proof {
            lemma_tdiv_magnitude(self.width as int, 2);
        }
        i64_tdiv(self.width, 2)
    }

    /// Half the height, rounded toward zero.
    pub fn center_y(&self) -> (c: i64)
        ensures
            c == tdiv(self.height as int, 2),
    {
        proof {
            lemma_tdiv_magnitude(self.height as int, 2);
        }
        i64_tdiv(self.height, 2)
    }

    /// Whether a point in centered orthographic coordinates falls inside
    /// the rectangle's extent.
    pub fn is_ortho_intersect(&self, ortho_point: Position) -> (r: bool)
        ensures
            r == (-tdiv(self.width as int, 2) <= ortho_point.x <= tdiv(self.width as int, 2)
                && -tdiv(self.height as int, 2) <= ortho_point.y <= tdiv(
                self.height as int,
                2,
            )),
    {
        let cx: i64 = self.center_x();
        let cy: i64 = self.center_y();
        ortho_point.x >= -cx && ortho_point.x <= cx && ortho_point.y >= -cy && ortho_point.y <= cy
    }
}

} // verus!
