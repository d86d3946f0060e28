use idroid::math::position::Position;
use idroid::math::touch_point::{
    TouchPoint, ALTITUDE_UPRIGHT, TOUCH_TY_END, TOUCH_TY_NO_PRESSURE,
};

#[test]
fn new_sample_zeroes_derived_fields() {
    let p = Position::new(1_000_000, 2_000_000);
    let t = TouchPoint::new(p, 300_000, 16_000, 500_000);
    assert_eq!((t.pos.x, t.pos.y), (1_000_000, 2_000_000));
    assert_eq!(t.force, 300_000);
    assert_eq!(t.interval, 16_000);
    assert_eq!(t.stamp_scale, 500_000);
    assert_eq!((t.distance, t.speed, t.stamp), (0, 0, 0));
    assert_eq!(t.azimuth_angle, 0);
    assert_eq!(t.altitude_angle, ALTITUDE_UPRIGHT);
    assert_eq!(t.ty, TOUCH_TY_NO_PRESSURE);
    assert!(!t.is_the_end());
}

#[test]
fn new_by_pos_carries_only_the_location() {
    let t = TouchPoint::new_by_pos(Position::new(5, 6));
    assert_eq!((t.pos.x, t.pos.y), (5, 6));
    assert_eq!((t.force, t.interval, t.stamp_scale), (0, 0, 0));
    assert_eq!(t.ty, TOUCH_TY_NO_PRESSURE);
}

#[test]
fn end_sample_is_terminal() {
    let t = TouchPoint::new_end(Position::zero());
    assert_eq!(t.ty, TOUCH_TY_END);
    assert_eq!(t.stamp_scale, 1_000_000);
    assert!(t.is_the_end());
}

#[test]
fn set_to_end_type_marks_terminal() {
    let mut t = TouchPoint::new_by_pos(Position::zero());
    assert!(!t.is_the_end());
    t.set_to_end_type();
    assert!(t.is_the_end());
}

#[test]
fn update_measures_distance_and_speed() {
    let prev = TouchPoint::new(Position::zero(), 0, 0, 0);
    // half a second later, at the 3-4-5 corner: speed is 10 units per second
    let mut cur = TouchPoint::new(Position::new(3_000_000, 4_000_000), 0, 500_000, 0);
    cur.update(&prev);
    assert_eq!(cur.distance, 5_000_000);
    assert_eq!(cur.speed, 10_000_000);
}

#[test]
fn update_of_end_sample_inherits_previous_speed() {
    let mut prev = TouchPoint::new(Position::zero(), 0, 16_000, 0);
    prev.speed = 123_456;
    let mut end = TouchPoint::new_end(Position::new(9_000_000, 9_000_000));
    end.update(&prev);
    assert_eq!(end.speed, 123_456);
    // nothing else is recomputed at lift-off
    assert_eq!(end.distance, 0);
}

#[test]
fn update_of_coincident_samples_measures_nothing() {
    let p = Position::new(7_000_000, -2_000_000);
    let prev = TouchPoint::new(p, 0, 16_000, 0);
    let mut cur = TouchPoint::new(p, 0, 16_000, 0);
    cur.update(&prev);
    assert_eq!(cur.distance, 0);
    assert_eq!(cur.speed, 0);
}

#[test]
fn update_with_zero_interval_degrades_to_zero_speed() {
    let prev = TouchPoint::new(Position::zero(), 0, 0, 0);
    let mut cur = TouchPoint::new(Position::new(1_000_000, 0), 0, 0, 0);
    cur.update(&prev);
    assert_eq!(cur.distance, 1_000_000);
    assert_eq!(cur.speed, 0);
}
