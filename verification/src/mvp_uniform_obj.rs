//! The pinch-zoom transform composer: it accumulates a gesture's scale,
//! anchors the zoom at the point where the pinch started, and composes the
//! projection and model-view matrices into the uniform value the renderer
//! uploads before the next draw.

use crate::fixed::{
    fx_mul, lemma_tdiv_bound, lemma_tdiv_exact, lemma_tdiv_magnitude, mul_fx, tdiv, FX_HALF,
    FX_ONE,
};
use crate::math::size::Size;
use crate::matrix::{
    lemma_mul_identity_left, s_identity, s_mat_mul, s_scaling, s_translation, Mat4, MAT_LIMIT,
};
use vstd::prelude::*;

verus! {

/// The accumulated pinch scale never drops below this floor: seven tenths
/// of a unit. Below it the anchor translation would amplify instability,
/// so the composer clamps and scales about the center instead.
pub const SCALE_FLOOR: i64 = 700_000;

/// Largest accumulated pinch scale the composer accepts: a hundred
/// thousand units, far past any usable zoom, yet small enough that every
/// matrix entry it produces stays within [`MAT_LIMIT`].
pub const MAX_SCALE: i64 = 100_000_000_000;

/// The uniform value holding one composed model-view-projection matrix.
#[derive(Clone, Copy, Debug, PartialEq, Eq, Structural)]
pub struct MVPUniform {
    pub mvp_matrix: Mat4,
}

/// A uniform value carrying the projection and model-view matrices
/// separately.
#[derive(Clone, Copy, Debug, PartialEq, Eq, Structural)]
pub struct MVPUniform2 {
    pub p_matrix: Mat4,
    pub mv_matrix: Mat4,
}

impl MVPUniform {
    /// The all-zero uniform.
    pub fn zero() -> (u: MVPUniform)
        ensures
            u == (MVPUniform {
                mvp_matrix: Mat4 {
                    m00: 0, m01: 0, m02: 0, m03: 0,
                    m10: 0, m11: 0, m12: 0, m13: 0,
                    m20: 0, m21: 0, m22: 0, m23: 0,
                    m30: 0, m31: 0, m32: 0, m33: 0,
                },
            }),
    {
        MVPUniform {
            mvp_matrix: Mat4 {
                m00: 0, m01: 0, m02: 0, m03: 0,
                m10: 0, m11: 0, m12: 0, m13: 0,
                m20: 0, m21: 0, m22: 0, m23: 0,
                m30: 0, m31: 0, m32: 0, m33: 0,
            },
        }
    }
}

/// The scale after one gesture update: deltas accumulate multiplicatively,
/// and the result is clamped to [`SCALE_FLOOR`].
pub open spec fn s_next_scale(scale: int, delta: int) -> int {
    if mul_fx(scale, delta) < SCALE_FLOOR {
        SCALE_FLOOR as int
    } else {
        mul_fx(scale, delta)
    }
}

/// The model-view matrix of a pinch anchored at offset `(ox, oy)` from the
/// view center, panned by `(tx, ty)`: translate the anchor to the center,
/// scale by `s`, translate back to the anchor shifted by the pan.
pub open spec fn s_anchored_view(s: int, ox: int, oy: int, tx: int, ty: int) -> Mat4 {
    Mat4 {
        m00: s as i64,
        m01: 0,
        m02: 0,
        m03: tdiv(s * (ox + tx) + (-ox) * FX_ONE, FX_ONE as int) as i64,
        m10: 0,
        m11: s as i64,
        m12: 0,
        m13: tdiv(s * (oy + ty) + (-oy) * FX_ONE, FX_ONE as int) as i64,
        m20: 0,
        m21: 0,
        m22: FX_ONE,
        m23: 0,
        m30: 0,
        m31: 0,
        m32: 0,
        m33: FX_ONE,
    }
}

/// The model-view matrix one gesture update composes, given the already
/// clamped scale `s`, the anchor recorded at the gesture start and the
/// current centroid (both in normalized view coordinates). Below one unit
/// of zoom no anchor offset or pan applies: the view only scales about its
/// center.
pub open spec fn s_pinch_view(s: int, start_x: int, start_y: int, loc_x: int, loc_y: int) -> Mat4 {
    if s < FX_ONE {
        s_anchored_view(s, 0, 0, 0, 0)
    } else {
        s_anchored_view(
            s,
            2 * (FX_HALF - start_x),
            2 * (FX_HALF - start_y),
            loc_x - start_x,
            loc_y - start_y,
        )
    }
}

/// The projection a viewport of `w` by `h` pixels gets: an orthographic
/// map of the centered pixel box onto the unit device box.
pub open spec fn s_projection(w: int, h: int) -> Mat4 {
    Mat4 {
        m00: tdiv(2 * FX_ONE, w) as i64,
        m01: 0,
        m02: 0,
        m03: 0,
        m10: 0,
        m11: tdiv(2 * FX_ONE, h) as i64,
        m12: 0,
        m13: 0,
        m20: 0,
        m21: 0,
        m22: FX_ONE,
        m23: 0,
        m30: 0,
        m31: 0,
        m32: 0,
        m33: FX_ONE,
    }
}

/// Owner of the interactive view transform: the accumulated pinch scale,
/// the gesture anchor, and the fixed projection and base model-view
/// matrices set once from the viewport size.
pub struct MVPUniformObj {
    /// Accumulated pinch scale, starting at one unit.
    pub scale: i64,
    /// Anchor recorded by the latest gesture start, in normalized view
    /// coordinates; gesture updates before any start find it empty and do
    /// nothing.
    pub pintch_start_location: Option<(i64, i64)>,
    /// Projection fixed at construction from the viewport size.
    pub p_matrix: Mat4,
    /// Base model-view matrix fixed at construction.
    pub base_mv_matrix: Mat4,
}

impl MVPUniformObj {
    /// The composer's invariant: the scale sits between the clamp floor
    /// and the accepted maximum, the base model-view matrix is the
    /// identity, the projection runs through products safely, and any
    /// recorded anchor is a normalized coordinate.
    pub open spec fn wf(self) -> bool {
        &&& SCALE_FLOOR <= self.scale <= MAX_SCALE
        &&& self.base_mv_matrix == s_identity()
        &&& self.p_matrix.bounded()
        &&& match self.pintch_start_location {
            Some(l) => 0 <= l.0 <= FX_ONE && 0 <= l.1 <= FX_ONE,
            None => true,
        }
    }

    /// A composer for a viewport of the given pixel size: unit scale, no
    /// gesture in flight, projection derived from the viewport.
    pub fn new(viewport_size: Size) -> (obj: MVPUniformObj)
        requires
            viewport_size.x >= 1,
            viewport_size.y >= 1,
        ensures
            obj.scale == FX_ONE,
            obj.pintch_start_location is None,
            obj.p_matrix == s_projection(viewport_size.x as int, viewport_size.y as int),
            obj.base_mv_matrix == s_identity(),
            obj.wf(),
    {
        proof {
            lemma_tdiv_magnitude(2 * FX_ONE, viewport_size.x as int);
            lemma_tdiv_magnitude(2 * FX_ONE, viewport_size.y as int);
        }
        let sx: i64 = crate::fixed::i64_tdiv(2 * FX_ONE, viewport_size.x as i64);
        let sy: i64 = crate::fixed::i64_tdiv(2 * FX_ONE, viewport_size.y as i64);
        MVPUniformObj {
            scale: FX_ONE,
            pintch_start_location: None,
            p_matrix: Mat4 {
                m00: sx,
                m01: 0,
                m02: 0,
                m03: 0,
                m10: 0,
                m11: sy,
                m12: 0,
                m13: 0,
                m20: 0,
                m21: 0,
                m22: FX_ONE,
                m23: 0,
                m30: 0,
                m31: 0,
                m32: 0,
                m33: FX_ONE,
            },
            base_mv_matrix: Mat4::identity(),
        }
    }

    /// The uniform the renderer uploads before any gesture arrives: the
    /// projection composed with the base model-view matrix.
    pub fn mvp_uniform(&self) -> (u: MVPUniform)
        requires
            self.wf(),
        ensures
            u.mvp_matrix == s_mat_mul(self.p_matrix, self.base_mv_matrix),
    {
        let m = self.p_matrix.mat_mul(&self.base_mv_matrix);
        MVPUniform { mvp_matrix: m }
    }

    /// Record the anchor of a pinch gesture. Zooming and panning stay
    /// anchored at this point for the whole gesture.
    pub fn pintch_start(&mut self, location: (i64, i64), _scale: i64)
        requires
            0 <= location.0 <= FX_ONE,
            0 <= location.1 <= FX_ONE,
        ensures
            *final(self) == (MVPUniformObj {
                pintch_start_location: Some(location),
                ..*old(self)
            }),
    {
        self.pintch_start_location = Some(location);
    }

    /// Apply one pinch update: accumulate `scale` multiplicatively, clamp
    /// at [`SCALE_FLOOR`], compose the anchored model-view matrix, and
    /// hand back the uniform to upload. Before any [`Self::pintch_start`]
    /// the update is a no-op and nothing is handed back.
    pub fn pintch_changed(&mut self, location: (i64, i64), scale: i64) -> (r: Option<MVPUniform>)
        requires
            old(self).wf(),
            0 <= location.0 <= FX_ONE,
            0 <= location.1 <= FX_ONE,
            -MAX_SCALE <= scale <= MAX_SCALE,
            mul_fx(old(self).scale as int, scale as int) <= MAX_SCALE,
        ensures
            old(self).pintch_start_location is None ==> r is None && *final(self) == *old(self),
            match old(self).pintch_start_location {
                Some(start) => {
                    &&& final(self).scale == s_next_scale(old(self).scale as int, scale as int)
                    &&& final(self).pintch_start_location == old(self).pintch_start_location
                    &&& final(self).p_matrix == old(self).p_matrix
                    &&& final(self).base_mv_matrix == old(self).base_mv_matrix
                    &&& final(self).wf()
                    &&& r == Some(MVPUniform {
                        mvp_matrix: s_mat_mul(
                            old(self).p_matrix,
                            s_pinch_view(
                                s_next_scale(old(self).scale as int, scale as int),
                                start.0 as int,
                                start.1 as int,
                                location.0 as int,
                                location.1 as int,
                            ),
                        ),
                    })
                },
                None => true,
            },
    {
        match self.pintch_start_location {
            None => None,
            Some(start) => {
                proof {
                    assert(-10_000_000_000_000_000_000_000 <= (self.scale as int) * (scale as int)
                        <= 10_000_000_000_000_000_000_000) by (nonlinear_arith)
                        requires
                            SCALE_FLOOR <= self.scale as int <= MAX_SCALE,
                            -MAX_SCALE <= scale as int <= MAX_SCALE,
                    ;
                    lemma_tdiv_bound(
                        (self.scale as int) * (scale as int),
                        FX_ONE as int,
                        10_000_000_000_000_000,
                    );
                }
                let s1: i64 = fx_mul(self.scale, scale);
                let s2: i64 = if s1 < SCALE_FLOOR {
                    SCALE_FLOOR
                } else {
                    s1
                };
                self.scale = s2;
                let (ox, oy, tx, ty): (i64, i64, i64, i64) = if s2 < FX_ONE {
                    (0, 0, 0, 0)
                } else {
                    (
                        (FX_HALF - start.0) * 2,
                        (FX_HALF - start.1) * 2,
                        location.0 - start.0,
                        location.1 - start.1,
                    )
                };
                let t_in = Mat4::translation(-ox, -oy);
                let vm1 = self.base_mv_matrix.mat_mul(&t_in);
                proof {
                    lemma_mul_identity_left(s_translation(-ox as int, -oy as int));
                }
                let sc = Mat4::scaling(s2);
                let vm2 = vm1.mat_mul(&sc);
                let t_out = Mat4::translation(ox + tx, oy + ty);
                proof {
                    lemma_anchored_decomposition(s2 as int, ox as int, oy as int, tx as int, ty as int);
                    lemma_anchored_bounded(s2 as int, ox as int, oy as int, tx as int, ty as int);
                }
                let vm3 = vm2.mat_mul(&t_out);
                proof {
                    assert(vm3 == s_anchored_view(s2 as int, ox as int, oy as int, tx as int, ty as int));
                    assert(vm3 == s_pinch_view(
                        s2 as int,
                        start.0 as int,
                        start.1 as int,
                        location.0 as int,
                        location.1 as int,
                    ));
                }
                let mvp = self.p_matrix.mat_mul(&vm3);
                Some(MVPUniform { mvp_matrix: mvp })
            },
        }
    }
}

/// Translating the anchor in, scaling, and translating back out composes
/// to the closed anchored-view form, entry for entry.
proof fn lemma_anchored_decomposition(s: int, ox: int, oy: int, tx: int, ty: int)
    requires
        0 < s <= MAX_SCALE,
        -2 * FX_ONE <= ox <= 2 * FX_ONE,
        -2 * FX_ONE <= oy <= 2 * FX_ONE,
        -2 * FX_ONE <= tx <= 2 * FX_ONE,
        -2 * FX_ONE <= ty <= 2 * FX_ONE,
    ensures
        s_mat_mul(
            s_mat_mul(s_translation(-ox, -oy), s_scaling(s)),
            s_translation(ox + tx, oy + ty),
        ) == s_anchored_view(s, ox, oy, tx, ty),
{
    lemma_tdiv_exact(0, FX_ONE as int);
    lemma_tdiv_exact(s, FX_ONE as int);
    lemma_tdiv_exact(-ox, FX_ONE as int);
    lemma_tdiv_exact(-oy, FX_ONE as int);
    lemma_tdiv_exact(FX_ONE as int, FX_ONE as int);
    let ab = s_mat_mul(s_translation(-ox, -oy), s_scaling(s));
    assert(ab == (Mat4 {
        m00: s as i64,
        m01: 0,
        m02: 0,
        m03: (-ox) as i64,
        m10: 0,
        m11: s as i64,
        m12: 0,
        m13: (-oy) as i64,
        m20: 0,
        m21: 0,
        m22: FX_ONE,
        m23: 0,
        m30: 0,
        m31: 0,
        m32: 0,
        m33: FX_ONE,
    }));
}

/// Every entry of the anchored view matrix stays within the product
/// budget when the scale and the normalized offsets are in range.
proof fn lemma_anchored_bounded(s: int, ox: int, oy: int, tx: int, ty: int)
    requires
        0 < s <= MAX_SCALE,
        -2 * FX_ONE <= ox <= 2 * FX_ONE,
        -2 * FX_ONE <= oy <= 2 * FX_ONE,
        -2 * FX_ONE <= tx <= 2 * FX_ONE,
        -2 * FX_ONE <= ty <= 2 * FX_ONE,
    ensures
        s_anchored_view(s, ox, oy, tx, ty).bounded(),
{
    assert(-400_000_000_000_000_000 <= s * (ox + tx) <= 400_000_000_000_000_000)
        by (nonlinear_arith)
        requires
            0 < s <= MAX_SCALE,
            -4 * FX_ONE <= ox + tx <= 4 * FX_ONE,
    ;
    assert(-400_000_000_000_000_000 <= s * (oy + ty) <= 400_000_000_000_000_000)
        by (nonlinear_arith)
        requires
            0 < s <= MAX_SCALE,
            -4 * FX_ONE <= oy + ty <= 4 * FX_ONE,
    ;
    lemma_tdiv_bound(s * (ox + tx) + (-ox) * FX_ONE, FX_ONE as int, MAT_LIMIT as int);
    lemma_tdiv_bound(s * (oy + ty) + (-oy) * FX_ONE, FX_ONE as int, MAT_LIMIT as int);
}

/// A pinch with its anchor at the view center, no centroid motion and a
/// unit scale factor changes nothing: the accumulated scale keeps its
/// initial value and the composed matrix is exactly the projection times
/// the base model-view matrix.
pub proof fn lemma_unit_pinch_preserves_view(p: Mat4)
    ensures
        s_next_scale(FX_ONE as int, FX_ONE as int) == FX_ONE as int,
        s_pinch_view(
            FX_ONE as int,
            FX_HALF as int,
            FX_HALF as int,
            FX_HALF as int,
            FX_HALF as int,
        ) == s_identity(),
        s_mat_mul(
            p,
            s_pinch_view(
                FX_ONE as int,
                FX_HALF as int,
                FX_HALF as int,
                FX_HALF as int,
                FX_HALF as int,
            ),
        ) == s_mat_mul(p, s_identity()),
{
    lemma_tdiv_exact(FX_ONE as int, FX_ONE as int);
    lemma_tdiv_exact(0, FX_ONE as int);
    assert(s_anchored_view(FX_ONE as int, 0, 0, 0, 0) == s_identity());
}

/// Two gesture updates whose scale factors are exact inverses, two units
/// then half a unit, return the accumulated scale to where it started, as
/// long as the clamp floor never triggers.
pub proof fn lemma_inverse_deltas_restore_scale(s: int)
    requires
        SCALE_FLOOR as int <= s,
    ensures
        s_next_scale(s_next_scale(s, 2 * FX_ONE), FX_HALF as int) == s,
{
    lemma_tdiv_exact(2 * s, FX_ONE as int);
    assert(s * (2 * FX_ONE) == (2 * s) * FX_ONE) by (nonlinear_arith);
    assert(s_next_scale(s, 2 * FX_ONE) == 2 * s);
    lemma_tdiv_exact(s, FX_ONE as int);
    assert((2 * s) * (FX_HALF as int) == s * FX_ONE) by (nonlinear_arith);
}

} // verus!
