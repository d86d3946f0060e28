//! One sample of a touch/stylus stroke stream, with the incremental update
//! that derives distance and velocity from the previous sample.

use crate::fixed::{div_fx, fx_div, lemma_tdiv_magnitude, FX_ONE};
use crate::math::position::{s_distance, Position};
use vstd::prelude::*;

verus! {

/// Tag of a sample with no pressure information.
pub const TOUCH_TY_NO_PRESSURE: i32 = -1;

/// Tag of the terminal sample of a stroke.
pub const TOUCH_TY_END: i32 = 0;

/// Tag of a stylus sample.
pub const TOUCH_TY_PENCIL: i32 = 1;

/// Tag of a pressure-class touch sample.
pub const TOUCH_TY_FORCE: i32 = 2;

/// The upright stylus altitude, a quarter turn in millionths of a radian.
pub const ALTITUDE_UPRIGHT: i64 = 1_570_796;

/// One sample in a gesture or stroke stream. All fractional fields are
/// fixed-point (millionths): pressure, angles in radians, the distance to
/// the previous sample, the time since it in seconds, and the derived
/// speed.
#[derive(Clone, Copy, Debug, PartialEq, Eq, Structural)]
pub struct TouchPoint {
    pub pos: Position,
    /// Azimuth of the stylus, millionths of a radian.
    pub azimuth_angle: i64,
    /// Altitude of the stylus, millionths of a radian.
    pub altitude_angle: i64,
    /// Input pressure; zero when the device reports none.
    pub force: i64,
    /// Ink stamp size derived downstream from pressure and brush size.
    pub stamp: i64,
    /// Distance from the previous sample, filled in by [`TouchPoint::update`].
    pub distance: i64,
    /// Time since the previous sample, supplied by the platform layer.
    pub interval: i64,
    /// Distance per unit time, filled in by [`TouchPoint::update`].
    pub speed: i64,
    /// Which kind of sample this is; see the `TOUCH_TY_` constants.
    pub ty: i32,
    /// Brush-size scale factor for thin stroke starts.
    pub stamp_scale: i64,
}

impl TouchPoint {
    /// A fresh in-progress sample: derived fields zeroed, stylus upright.
    pub fn new(pos: Position, force: i64, interval: i64, stamp_scale: i64) -> (t: TouchPoint)
        ensures
            t == (TouchPoint {
                pos,
                azimuth_angle: 0,
                altitude_angle: ALTITUDE_UPRIGHT,
                force,
                stamp: 0,
                distance: 0,
                interval,
                speed: 0,
                ty: TOUCH_TY_NO_PRESSURE,
                stamp_scale,
            }),
    {
        TouchPoint {
            pos,
            azimuth_angle: 0,
            altitude_angle: ALTITUDE_UPRIGHT,
            force,
            stamp: 0,
            distance: 0,
            interval,
            speed: 0,
            ty: TOUCH_TY_NO_PRESSURE,
            stamp_scale,
        }
    }

    /// A fresh sample carrying only a location.
    pub fn new_by_pos(pos: Position) -> (t: TouchPoint)
        ensures
            t == (TouchPoint {
                pos,
                azimuth_angle: 0,
                altitude_angle: ALTITUDE_UPRIGHT,
                force: 0,
                stamp: 0,
                distance: 0,
                interval: 0,
                speed: 0,
                ty: TOUCH_TY_NO_PRESSURE,
                stamp_scale: 0,
            }),
    {
        TouchPoint {
            pos,
            azimuth_angle: 0,
            altitude_angle: ALTITUDE_UPRIGHT,
            force: 0,
            stamp: 0,
            distance: 0,
            interval: 0,
            speed: 0,
            ty: TOUCH_TY_NO_PRESSURE,
            stamp_scale: 0,
        }
    }

    /// The terminal sample of a stroke.
    pub fn new_end(pos: Position) -> (t: TouchPoint)
        ensures
            t == (TouchPoint {
                pos,
                azimuth_angle: 0,
                altitude_angle: ALTITUDE_UPRIGHT,
                force: 0,
                stamp: 0,
                distance: 0,
                interval: 0,
                speed: 0,
                ty: TOUCH_TY_END,
                stamp_scale: FX_ONE,
            }),
    {
        TouchPoint {
            pos,
            azimuth_angle: 0,
            altitude_angle: ALTITUDE_UPRIGHT,
            force: 0,
            stamp: 0,
            distance: 0,
            interval: 0,
            speed: 0,
            ty: TOUCH_TY_END,
            stamp_scale: FX_ONE,
        }
    }

    /// Derive this sample's distance and speed from the previous sample.
    ///
    /// A terminal sample inherits the previous speed unchanged, so the
    /// stroke closes smoothly instead of spiking on the near-zero closing
    /// interval. Otherwise the distance to the previous sample is measured;
    /// coincident samples (duplicate events) and a zero interval divide
    /// nothing and degrade to an unchanged distance or a zero speed.
    pub fn update(&mut self, last: &TouchPoint)
        requires
            old(self).pos.bounded(),
            last.pos.bounded(),
            old(self).interval >= 0,
        ensures
            old(self).ty == TOUCH_TY_END ==> *final(self) == (TouchPoint {
                speed: last.speed,
                ..*old(self)
            }),
            old(self).ty != TOUCH_TY_END && s_distance(old(self).pos, last.pos) == 0
                ==> *final(self) == *old(self),
            old(self).ty != TOUCH_TY_END && s_distance(old(self).pos, last.pos) > 0
                && old(self).interval == 0 ==> *final(self) == (TouchPoint {
                distance: s_distance(old(self).pos, last.pos) as i64,
                speed: 0,
                ..*old(self)
            }),
            old(self).ty != TOUCH_TY_END && s_distance(old(self).pos, last.pos) > 0
                && old(self).interval > 0 ==> *final(self) == (TouchPoint {
                distance: s_distance(old(self).pos, last.pos) as i64,
                speed: div_fx(s_distance(old(self).pos, last.pos), old(self).interval as int) as i64,
                ..*old(self)
            }),
    {
        if self.is_the_end() {
            self.speed = last.speed;
        } else {
            let dis: i64 = self.pos.distance(&last.pos);
            if dis > 0 {
                self.distance = dis;
                if self.interval > 0 {
                    proof {
                        lemma_tdiv_magnitude(dis * FX_ONE, self.interval as int);
                    }
                    self.speed = fx_div(dis, self.interval);
                } else {
                    self.speed = 0;
                }
            }
        }
    }

    /// Mark this sample as the terminal one.
    pub fn set_to_end_type(&mut self)
        ensures
            *final(self) == (TouchPoint { ty: TOUCH_TY_END, ..*old(self) }),
    {
        self.ty = TOUCH_TY_END;
    }

    /// Whether this is the terminal sample of its stroke.
    pub fn is_the_end(&self) -> (r: bool)
        ensures
            r == (self.ty == TOUCH_TY_END),
    {
        self.ty == TOUCH_TY_END
    }
}

} // verus!
