//! A 2D point over fixed-point coordinates, with the vector arithmetic the
//! touch and gesture handling relies on.

use crate::fixed::{
    div_fx, fx_div, fx_mul, fx_rem, is_isqrt, isqrt_u128, lemma_isqrt_unique, lemma_tdiv_bound,
    lemma_tdiv_exact, lemma_tdiv_magnitude, mul_fx, s_isqrt, tdiv, tmod, FX_HALF, FX_ONE,
};
use crate::math::size::Size;
use crate::math::view_size::ViewSize;
use vstd::prelude::*;

verus! {

/// Largest coordinate magnitude the distance and projection operations
/// accept: one million units, far beyond any viewport, yet small enough
/// that squares and rescalings stay inside the machine word.
pub const POS_LIMIT: i64 = 1_000_000_000_000;

/// A point or vector in fixed-point coordinates (millionths of a pixel or
/// of a normalized unit, depending on the space it lives in).
#[derive(Clone, Copy, Debug, PartialEq, Eq, Structural)]
pub struct Position {
    pub x: i64,
    pub y: i64,
}

/// Squared Euclidean length of the vector from `b` to `a`.
pub open spec fn s_dist_sq(a: Position, b: Position) -> int {
    (a.x - b.x) * (a.x - b.x) + (a.y - b.y) * (a.y - b.y)
}

/// Euclidean distance between two points, in fixed-point units: the integer
/// square root of the squared coordinate differences.
pub open spec fn s_distance(a: Position, b: Position) -> int {
    s_isqrt(s_dist_sq(a, b))
}

/// Half the viewport extent, as a fixed-point pixel coordinate.
pub open spec fn s_half_px(pixels: int) -> int {
    pixels * (FX_HALF as int)
}

/// The normalized-device x coordinate of pixel coordinate `x` in a viewport
/// `w` pixels wide.
pub open spec fn s_std_x(x: int, w: int) -> int {
    div_fx(x - s_half_px(w), s_half_px(w))
}

/// The normalized-device y coordinate of pixel coordinate `y` in a viewport
/// `h` pixels tall. Pixel y grows downward while device y grows upward, so
/// the sign flips.
pub open spec fn s_std_y(y: int, h: int) -> int {
    -div_fx(y - s_half_px(h), s_half_px(h))
}

/// Pixel x coordinate of normalized-device x coordinate `sx`: the inverse
/// of [`s_std_x`] wherever that map is exact.
pub open spec fn s_pixel_x(sx: int, w: int) -> int {
    tdiv(sx * s_half_px(w), FX_ONE as int) + s_half_px(w)
}

/// Pixel y coordinate of normalized-device y coordinate `sy`: the inverse
/// of [`s_std_y`] wherever that map is exact.
pub open spec fn s_pixel_y(sy: int, h: int) -> int {
    s_half_px(h) - tdiv(sy * s_half_px(h), FX_ONE as int)
}

/// Rounding to the nearest whole unit, halves away from zero.
pub open spec fn s_round_fx(a: int) -> int {
    if a >= 0 {
        tdiv(a + FX_HALF, FX_ONE as int) * FX_ONE
    } else {
        -(tdiv(-a + FX_HALF, FX_ONE as int) * FX_ONE)
    }
}

impl Position {
    /// Whether both coordinates are within [`POS_LIMIT`].
    pub open spec fn bounded(self) -> bool {
        -POS_LIMIT <= self.x <= POS_LIMIT && -POS_LIMIT <= self.y <= POS_LIMIT
    }

    pub fn new(x: i64, y: i64) -> (p: Position)
        ensures
            p.x == x,
            p.y == y,
    {
        Position { x, y }
    }

    pub fn zero() -> (p: Position)
        ensures
            p.x == 0,
            p.y == 0,
    {
        Position { x: 0, y: 0 }
    }

    pub fn is_equal_zero(&self) -> (r: bool)
        ensures
            r == (self.x == 0 && self.y == 0),
    {
        self.x == 0 && self.y == 0
    }

    pub fn add(&self, other: &Position) -> (p: Position)
        requires
            i64::MIN <= self.x + other.x <= i64::MAX,
            i64::MIN <= self.y + other.y <= i64::MAX,
        ensures
            p.x == self.x + other.x,
            p.y == self.y + other.y,
    {
        Position { x: self.x + other.x, y: self.y + other.y }
    }

    pub fn minus(&self, other: &Position) -> (p: Position)
        requires
            i64::MIN <= self.x - other.x <= i64::MAX,
            i64::MIN <= self.y - other.y <= i64::MAX,
        ensures
            p.x == self.x - other.x,
            p.y == self.y - other.y,
    {
        Position { x: self.x - other.x, y: self.y - other.y }
    }

    pub fn multiply_f(&self, param: i64) -> (p: Position)
        requires
            i64::MIN <= mul_fx(self.x as int, param as int) <= i64::MAX,
            i64::MIN <= mul_fx(self.y as int, param as int) <= i64::MAX,
        ensures
            p.x == mul_fx(self.x as int, param as int),
            p.y == mul_fx(self.y as int, param as int),
    {
        Position { x: fx_mul(self.x, param), y: fx_mul(self.y, param) }
    }

    pub fn divide_f(&self, param: i64) -> (p: Position)
        requires
            param != 0,
            i64::MIN <= div_fx(self.x as int, param as int) <= i64::MAX,
            i64::MIN <= div_fx(self.y as int, param as int) <= i64::MAX,
        ensures
            p.x == div_fx(self.x as int, param as int),
            p.y == div_fx(self.y as int, param as int),
    {
        Position { x: fx_div(self.x, param), y: fx_div(self.y, param) }
    }

    pub fn offset(&self, dx: i64, dy: i64) -> (p: Position)
        requires
            i64::MIN <= self.x + dx <= i64::MAX,
            i64::MIN <= self.y + dy <= i64::MAX,
        ensures
            p.x == self.x + dx,
            p.y == self.y + dy,
    {
        Position { x: self.x + dx, y: self.y + dy }
    }

    /// Round each coordinate to the nearest whole unit, halves away from
    /// zero.
    pub fn round(&self) -> (p: Position)
        requires
            -(i64::MAX - FX_HALF) <= self.x <= i64::MAX - FX_HALF,
            -(i64::MAX - FX_HALF) <= self.y <= i64::MAX - FX_HALF,
        ensures
            p.x == s_round_fx(self.x as int),
            p.y == s_round_fx(self.y as int),
    {
        Position { x: round_fx(self.x), y: round_fx(self.y) }
    }

    /// Flip the y coordinate inside a viewport of the given height.
    pub fn flip_y(&self, viewport_height: u32) -> (p: Position)
        requires
            i64::MIN <= viewport_height * FX_ONE - self.y <= i64::MAX,
        ensures
            p.x == self.x,
            p.y == viewport_height * FX_ONE - self.y,
    {
        Position { x: self.x, y: (viewport_height as i64) * FX_ONE - self.y }
    }

    /// Length of the vector from the origin, in fixed-point units.
    pub fn vector_mod(&self) -> (r: i64)
        requires
            self.bounded(),
        ensures
            r == s_distance(*self, Position { x: 0, y: 0 }),
    {
        let o = Position { x: 0, y: 0 };
        self.distance(&o)
    }

    /// Each coordinate reduced modulo `mod_param`, keeping its own sign.
    pub fn mod_to(&self, mod_param: i64) -> (p: Position)
        requires
            mod_param != 0,
        ensures
            p.x == tmod(self.x as int, mod_param as int),
            p.y == tmod(self.y as int, mod_param as int),
    {
        Position { x: fx_rem(self.x, mod_param), y: fx_rem(self.y, mod_param) }
    }

    /// Euclidean distance to `other`, in fixed-point units.
    pub fn distance(&self, other: &Position) -> (r: i64)
        requires
            self.bounded(),
            other.bounded(),
        ensures
            r == s_distance(*self, *other),
            0 <= r <= 3_000_000_000_000,
    {
        let dx: i128 = (self.x as i128) - (other.x as i128);
        let dy: i128 = (self.y as i128) - (other.y as i128);
        proof {
            assert(dx * dx + dy * dy <= 8_000_000_000_000_000_000_000_000) by (nonlinear_arith)
                requires
                    -2_000_000_000_000 <= dx <= 2_000_000_000_000,
                    -2_000_000_000_000 <= dy <= 2_000_000_000_000,
            ;
            assert(dx * dx >= 0 && dy * dy >= 0) by (nonlinear_arith);
        }
        let sq: u128 = (dx * dx + dy * dy) as u128;
        let r: u64 = isqrt_u128(sq);
        proof {
            assert(r as int <= 3_000_000_000_000) by (nonlinear_arith)
                requires
                    is_isqrt(sq as int, r as int),
                    sq as int <= 8_000_000_000_000_000_000_000_000,
            ;
        }
        r as i64
    }

    /// Length of the vector from the origin; the same value as
    /// [`Position::vector_mod`].
    pub fn length(&self) -> (r: i64)
        requires
            self.bounded(),
        ensures
            r == s_distance(*self, Position { x: 0, y: 0 }),
    {
        let o = Position { x: 0, y: 0 };
        self.distance(&o)
    }

    /// Shift a pixel coordinate so the orthographic origin sits at the
    /// viewport center, with y growing upward.
    pub fn ortho_in(&self, view_size: ViewSize) -> (p: Position)
        requires
            self.bounded(),
        ensures
            p.x == self.x - s_half_px(view_size.width as int),
            p.y == s_half_px(view_size.height as int) - self.y,
    {
        let cx: i64 = view_size.center_x();
        let cy: i64 = view_size.center_y();
        Position { x: self.x - cx, y: cy - self.y }
    }

    /// Slope of the segment from `last` to `self`, as a fixed-point ratio.
    pub fn slope_with(&self, last: &Position) -> (r: i64)
        requires
            self.bounded(),
            last.bounded(),
            self.x != last.x,
        ensures
            r == div_fx(self.y - last.y, self.x - last.x),
    {
        let dy: i64 = self.y - last.y;
        let dx: i64 = self.x - last.x;
        proof {
            lemma_tdiv_magnitude(dy * FX_ONE, dx as int);
        }
        fx_div(dy, dx)
    }

    /// Cross product of the two position vectors, in fixed-point units.
    pub fn cross_multiply(&self, other: &Position) -> (r: i64)
        requires
            self.bounded(),
            other.bounded(),
        ensures
            r == tdiv(self.x * other.y - self.y * other.x, FX_ONE as int),
    {
        proof {
            assert(-1_000_000_000_000_000_000_000_000 <= (self.x as int) * (other.y as int)
                <= 1_000_000_000_000_000_000_000_000) by (nonlinear_arith)
                requires
                    -POS_LIMIT <= self.x as int <= POS_LIMIT,
                    -POS_LIMIT <= other.y as int <= POS_LIMIT,
            ;
            assert(-1_000_000_000_000_000_000_000_000 <= (self.y as int) * (other.x as int)
                <= 1_000_000_000_000_000_000_000_000) by (nonlinear_arith)
                requires
                    -POS_LIMIT <= self.y as int <= POS_LIMIT,
                    -POS_LIMIT <= other.x as int <= POS_LIMIT,
            ;
        }
        let a: i128 = (self.x as i128) * (other.y as i128);
        let b: i128 = (self.y as i128) * (other.x as i128);
        proof {
            lemma_tdiv_magnitude((a - b) as int, FX_ONE as int);
            lemma_tdiv_bound((a - b) as int, FX_ONE as int, 2_000_000_000_000_000_000);
        }
        let q: i128 = crate::fixed::i128_tdiv(a - b, FX_ONE as i128);
        q as i64
    }

    /// Map a pixel coordinate into normalized device coordinates for the
    /// given viewport: each axis lands in `[-1, 1]` for points inside the
    /// viewport, and the y axis flips.
    pub fn get_std_coord(&self, viewport_size: Size) -> (p: Position)
        requires
            self.bounded(),
            viewport_size.x >= 1,
            viewport_size.y >= 1,
        ensures
            p.x == s_std_x(self.x as int, viewport_size.x as int),
            p.y == s_std_y(self.y as int, viewport_size.y as int),
            0 <= self.x <= viewport_size.x * FX_ONE ==> -FX_ONE <= p.x <= FX_ONE,
            0 <= self.y <= viewport_size.y * FX_ONE ==> -FX_ONE <= p.y <= FX_ONE,
    {
        let half_w: i64 = (viewport_size.x as i64) * FX_HALF;
        let half_h: i64 = (viewport_size.y as i64) * FX_HALF;
        let x: i64 = std_axis(self.x, half_w);
        let y: i64 = std_axis(self.y, half_h);
        Position { x, y: -y }
    }

    /// Map a normalized-device coordinate back to the pixel coordinate it
    /// came from: the inverse of [`Position::get_std_coord`] wherever that
    /// map is exact.
    pub fn from_std_coord(&self, viewport_size: Size) -> (p: Position)
        requires
            viewport_size.x >= 1,
            viewport_size.y >= 1,
            i64::MIN <= s_pixel_x(self.x as int, viewport_size.x as int) <= i64::MAX,
            i64::MIN <= s_pixel_y(self.y as int, viewport_size.y as int) <= i64::MAX,
        ensures
            p.x == s_pixel_x(self.x as int, viewport_size.x as int),
            p.y == s_pixel_y(self.y as int, viewport_size.y as int),
    {
        let half_w: i64 = (viewport_size.x as i64) * FX_HALF;
        let half_h: i64 = (viewport_size.y as i64) * FX_HALF;
        let px: i128 = (self.x as i128) * (half_w as i128);
        let py: i128 = (self.y as i128) * (half_h as i128);
        proof {
            lemma_tdiv_magnitude(px as int, FX_ONE as int);
            lemma_tdiv_magnitude(py as int, FX_ONE as int);
        }
        let qx: i128 = crate::fixed::i128_tdiv(px, FX_ONE as i128);
        let qy: i128 = crate::fixed::i128_tdiv(py, FX_ONE as i128);
        let x: i128 = qx + (half_w as i128);
        let y: i128 = (half_h as i128) - qy;
        Position { x: x as i64, y: y as i64 }
    }
}

/// One axis of the normalized-device mapping: the signed offset from the
/// viewport center, as a fraction of the half extent.
fn std_axis(v: i64, half: i64) -> (r: i64)
    requires
        -POS_LIMIT <= v <= POS_LIMIT,
        1 <= half <= 3_000_000_000_000_000,
    ensures
        r == div_fx(v - half, half as int),
        -2_000_000_000_000_000_000 <= r <= 2_000_000_000_000_000_000,
        -half <= v - half <= half ==> -FX_ONE <= r <= FX_ONE,
{
    let d: i128 = (v as i128) - (half as i128);
    proof {
        assert(-10_000_000_000_000_000_000_000 <= d * (FX_ONE as int)
            <= 10_000_000_000_000_000_000_000) by (nonlinear_arith)
            requires
                -4_000_000_000_000_000 <= d <= 4_000_000_000_000_000,
        ;
    }
    let num: i128 = d * (FX_ONE as i128);
    proof {
        lemma_tdiv_magnitude(num as int, half as int);
        if -half <= (v as int) - (half as int) <= half {
            assert(-((FX_ONE as int) * (half as int)) <= num <= (FX_ONE as int) * (half as int))
                by (nonlinear_arith)
                requires
                    num == ((v as int) - (half as int)) * (FX_ONE as int),
                    -(half as int) <= (v as int) - (half as int) <= half as int,
                    half as int >= 1,
            ;
            lemma_tdiv_bound(num as int, half as int, FX_ONE as int);
        }
    }
    let q: i128 = crate::fixed::i128_tdiv(num, half as i128);
    proof {
        assert(-(2_000_000_000_000_000_000 * (half as int)) <= num <= 2_000_000_000_000_000_000 * (
        half as int)) by (nonlinear_arith)
            requires
                num == ((v as int) - (half as int)) * (FX_ONE as int),
                -POS_LIMIT <= v as int <= POS_LIMIT,
                1 <= half as int <= 3_000_000_000_000_000,
        ;
        lemma_tdiv_bound(num as int, half as int, 2_000_000_000_000_000_000);
    }
    q as i64
}

/// Round one coordinate to the nearest whole unit, halves away from zero.
fn round_fx(a: i64) -> (r: i64)
    requires
        -(i64::MAX - FX_HALF) <= a <= i64::MAX - FX_HALF,
    ensures
        r == s_round_fx(a as int),
{
    if a >= 0 {
        let t: i64 = a + FX_HALF;
        proof {
            lemma_tdiv_magnitude(t as int, FX_ONE as int);
            vstd::arithmetic::div_mod::lemma_fundamental_div_mod(t as int, FX_ONE as int);
            vstd::arithmetic::div_mod::lemma_mod_bound(t as int, FX_ONE as int);
        }
        let q: i64 = crate::fixed::i64_tdiv(t, FX_ONE);
        proof {
            assert((t as int) / (FX_ONE as int) * (FX_ONE as int) == (FX_ONE as int) * ((t as int)
                / (FX_ONE as int))) by (nonlinear_arith);
        }
        q * FX_ONE
    } else {
        let t: i64 = -a + FX_HALF;
        proof {
            lemma_tdiv_magnitude(t as int, FX_ONE as int);
            vstd::arithmetic::div_mod::lemma_fundamental_div_mod(t as int, FX_ONE as int);
            vstd::arithmetic::div_mod::lemma_mod_bound(t as int, FX_ONE as int);
        }
        let q: i64 = crate::fixed::i64_tdiv(t, FX_ONE);
        proof {
            assert((t as int) / (FX_ONE as int) * (FX_ONE as int) == (FX_ONE as int) * ((t as int)
                / (FX_ONE as int))) by (nonlinear_arith);
        }
        -(q * FX_ONE)
    }
}

/// Distance is symmetric: it reads the same from either endpoint.
pub proof fn lemma_distance_symmetric(a: Position, b: Position)
    ensures
        s_distance(a, b) == s_distance(b, a),
{
    assert(s_dist_sq(a, b) == s_dist_sq(b, a)) by (nonlinear_arith);
}

/// The distance between coincident points is zero; in particular a point is
/// at distance zero from itself.
pub proof fn lemma_coincident_distance_zero(a: Position, b: Position)
    requires
        a.x == b.x,
        a.y == b.y,
    ensures
        s_distance(a, b) == 0,
{
    assert(s_dist_sq(a, b) == 0) by (nonlinear_arith)
        requires
            a.x == b.x,
            a.y == b.y,
    ;
    assert(is_isqrt(0, 0)) by (nonlinear_arith);
    lemma_isqrt_unique(0, 0);
}

/// The normalized-device mapping undoes exactly: wherever the forward
/// division loses nothing, mapping a pixel position to normalized device
/// coordinates and back recovers the position.
pub proof fn lemma_std_coord_round_trip(p: Position, w: int, h: int)
    requires
        p.bounded(),
        w >= 1,
        h >= 1,
        tmod((p.x - s_half_px(w)) * FX_ONE, s_half_px(w)) == 0,
        tmod((p.y - s_half_px(h)) * FX_ONE, s_half_px(h)) == 0,
    ensures
        s_pixel_x(s_std_x(p.x as int, w), w) == p.x,
        s_pixel_y(s_std_y(p.y as int, h), h) == p.y,
{
    lemma_std_axis_round_trip(p.x as int, s_half_px(w));
    lemma_std_axis_round_trip(p.y as int, s_half_px(h));
    let sy: int = div_fx(p.y - s_half_px(h), s_half_px(h));
    assert((-sy) * s_half_px(h) == -(sy * s_half_px(h))) by (nonlinear_arith);
    lemma_tdiv_neg(sy * s_half_px(h), FX_ONE as int);
}

/// One axis of the round trip: exact forward division makes the inverse
/// land on the original coordinate.
proof fn lemma_std_axis_round_trip(v: int, half: int)
    requires
        half >= 1,
        tmod((v - half) * FX_ONE, half) == 0,
    ensures
        tdiv(div_fx(v - half, half) * half, FX_ONE as int) + half == v,
{
    let num: int = (v - half) * FX_ONE;
    let s: int = tdiv(num, half);
    assert(num == half * s + tmod(num, half)) by {
        assert(half * s == s * half) by (nonlinear_arith);
    }
    assert(s * half == num);
    assert(num == (v - half) * FX_ONE);
    lemma_tdiv_exact(v - half, FX_ONE as int);
    assert(tdiv(s * half, FX_ONE as int) == v - half);
}

/// Negating the dividend negates the truncating quotient.
proof fn lemma_tdiv_neg(a: int, b: int)
    requires
        b > 0,
    ensures
        tdiv(-a, b) == -tdiv(a, b),
{
}

impl From<(i64, i64)> for Position {
    fn from(vs: (i64, i64)) -> (p: Position) {
        Position { x: vs.0, y: vs.1 }
    }
}

impl vstd::std_specs::convert::FromSpecImpl<(i64, i64)> for Position {
    open spec fn obeys_from_spec() -> bool {
        true
    }

    open spec fn from_spec(vs: (i64, i64)) -> Position {
        Position { x: vs.0, y: vs.1 }
    }
}

impl From<Position> for [i64; 2] {
    fn from(p: Position) -> (vs: [i64; 2]) {
        [p.x, p.y]
    }
}

impl vstd::std_specs::convert::FromSpecImpl<Position> for [i64; 2] {
    open spec fn obeys_from_spec() -> bool {
        true
    }

    open spec fn from_spec(p: Position) -> [i64; 2] {
        [p.x, p.y]
    }
}

impl From<[i64; 2]> for Position {
    fn from(vs: [i64; 2]) -> (p: Position) {
        Position { x: vs[0], y: vs[1] }
    }
}

impl vstd::std_specs::convert::FromSpecImpl<[i64; 2]> for Position {
    open spec fn obeys_from_spec() -> bool {
        true
    }

    open spec fn from_spec(vs: [i64; 2]) -> Position {
        Position { x: vs[0], y: vs[1] }
    }
}

} // verus!
