use idroid::math::position::Position;
use idroid::math::rect::Rect;
use idroid::math::size::Size;
use idroid::math::view_size::ViewSize;
use idroid::vertex::PosParticleIndex;

#[test]
fn position_arithmetic_is_exact() {
    let a = Position::new(1_000_000, 2_000_000);
    let b = Position::new(250_000, -500_000);
    let s = a.add(&b);
    assert_eq!((s.x, s.y), (1_250_000, 1_500_000));
    let d = a.minus(&b);
    assert_eq!((d.x, d.y), (750_000, 2_500_000));
    let m = a.multiply_f(1_500_000);
    assert_eq!((m.x, m.y), (1_500_000, 3_000_000));
    let q = a.divide_f(2_000_000);
    assert_eq!((q.x, q.y), (500_000, 1_000_000));
    let o = a.offset(10, -10);
    assert_eq!((o.x, o.y), (1_000_010, 1_999_990));
}

#[test]
fn position_zero_and_equality_probe() {
    let z = Position::zero();
    assert!(z.is_equal_zero());
    assert!(!Position::new(1, 0).is_equal_zero());
    assert!(!Position::new(0, -1).is_equal_zero());
}

#[test]
fn position_round_halves_away_from_zero() {
    let p = Position::new(1_499_999, 1_500_000);
    let r = p.round();
    assert_eq!((r.x, r.y), (1_000_000, 2_000_000));
    let n = Position::new(-1_499_999, -1_500_000);
    let r = n.round();
    assert_eq!((r.x, r.y), (-1_000_000, -2_000_000));
}

#[test]
fn position_flip_y_mirrors_in_viewport() {
    let p = Position::new(3_000_000, 100_000_000);
    let f = p.flip_y(800);
    assert_eq!((f.x, f.y), (3_000_000, 700_000_000));
}

#[test]
fn position_mod_to_keeps_sign() {
    let p = Position::new(7_000_000, -7_000_000);
    let m = p.mod_to(3_000_000);
    assert_eq!((m.x, m.y), (1_000_000, -1_000_000));
}

#[test]
fn position_distance_of_pythagorean_triple() {
    let a = Position::new(0, 0);
    let b = Position::new(3_000_000, 4_000_000);
    assert_eq!(a.distance(&b), 5_000_000);
    assert_eq!(b.length(), 5_000_000);
    assert_eq!(b.vector_mod(), 5_000_000);
}

#[test]
fn position_distance_is_symmetric_and_zero_on_self() {
    let a = Position::new(123_456, -654_321);
    let b = Position::new(-777_777, 42);
    assert_eq!(a.distance(&b), b.distance(&a));
    assert_eq!(a.distance(&a), 0);
}

#[test]
fn position_slope_and_cross() {
    let last = Position::new(1_000_000, 1_000_000);
    let p = Position::new(3_000_000, 2_000_000);
    assert_eq!(p.slope_with(&last), 500_000);
    let ex = Position::new(1_000_000, 0);
    let ey = Position::new(0, 1_000_000);
    assert_eq!(ex.cross_multiply(&ey), 1_000_000);
    assert_eq!(ey.cross_multiply(&ex), -1_000_000);
}

#[test]
fn position_ortho_in_centers_the_origin() {
    let p = Position::new(100_000_000, 200_000_000);
    let vs = ViewSize::new(1000, 800);
    let o = p.ortho_in(vs);
    assert_eq!((o.x, o.y), (-400_000_000, 200_000_000));
}

#[test]
fn std_coord_maps_viewport_to_unit_box() {
    // a 100 x 200 pixel position inside a 1000 x 800 viewport
    let p = Position::new(100_000_000, 200_000_000);
    let vp = Size::new(1000, 800);
    let s = p.get_std_coord(vp);
    assert_eq!((s.x, s.y), (-800_000, 500_000));
    // corners stay inside [-1, 1]
    let tl = Position::new(0, 0).get_std_coord(vp);
    assert_eq!((tl.x, tl.y), (-1_000_000, 1_000_000));
    let br = Position::new(1_000_000_000, 800_000_000).get_std_coord(vp);
    assert_eq!((br.x, br.y), (1_000_000, -1_000_000));
}

#[test]
fn std_coord_round_trips_pixel_positions() {
    let vp = Size::new(1000, 800);
    let p = Position::new(100_000_000, 200_000_000);
    let back = p.get_std_coord(vp).from_std_coord(vp);
    assert_eq!((back.x, back.y), (p.x, p.y));
    let q = Position::new(987_000_000, 13_000_000);
    let back = q.get_std_coord(vp).from_std_coord(vp);
    assert_eq!((back.x, back.y), (q.x, q.y));
}

#[test]
fn rect_centers_inside_view() {
    let vs = ViewSize::new(1000, 800);
    let r = Rect::new(200_000_000, 100_000_000, vs);
    assert_eq!((r.x, r.y), (400_000_000, 350_000_000));
    assert_eq!((r.width, r.height), (200_000_000, 100_000_000));
    assert_eq!((r.origin.x, r.origin.y), (400_000_000, 350_000_000));
    assert_eq!(r.size, (200_000_000, 100_000_000));
}

#[test]
fn rect_standard_and_zero() {
    let s = Rect::get_standard_new();
    assert_eq!((s.x, s.y, s.width, s.height), (0, 0, 1_000_000, 1_000_000));
    let z = Rect::zero();
    assert_eq!((z.x, z.y, z.width, z.height), (0, 0, 0, 0));
    let f = Rect::from_origin_n_size(1, 2, 3, 4);
    assert_eq!((f.x, f.y, f.width, f.height), (1, 2, 3, 4));
}

#[test]
fn rect_ortho_intersection() {
    let r = Rect::from_origin_n_size(0, 0, 4_000_000, 2_000_000);
    assert_eq!(r.center_x(), 2_000_000);
    assert_eq!(r.center_y(), 1_000_000);
    assert!(r.is_ortho_intersect(Position::new(2_000_000, -1_000_000)));
    assert!(r.is_ortho_intersect(Position::new(0, 0)));
    assert!(!r.is_ortho_intersect(Position::new(2_000_001, 0)));
    assert!(!r.is_ortho_intersect(Position::new(0, -1_000_001)));
}

#[test]
fn size_counts_pixels() {
    let s = Size::new(1000, 800);
    assert_eq!(s.count(), 800_000);
    let s = Size::from([3, 4]);
    assert_eq!((s.x, s.y), (3, 4));
    let s = Size::from((5, 6));
    assert_eq!((s.x, s.y), (5, 6));
    let pair: (u32, u32) = <(u32, u32)>::from(s);
    assert_eq!(pair, (5, 6));
    let arr: [u32; 2] = <[u32; 2]>::from(s);
    assert_eq!(arr, [5, 6]);
}

#[test]
fn view_size_centers() {
    let vs = ViewSize::new(1000, 800);
    assert_eq!(vs.center_x(), 500_000_000);
    assert_eq!(vs.center_y(), 400_000_000);
}

#[test]
fn position_converts_from_pairs_and_arrays() {
    let p = Position::from((7, -8));
    assert_eq!((p.x, p.y), (7, -8));
    let q = Position::from([9, 10]);
    assert_eq!((q.x, q.y), (9, 10));
    let vs: [i64; 2] = <[i64; 2]>::from(q);
    assert_eq!(vs, [9, 10]);
}

#[test]
fn particle_index_keeps_its_coordinates() {
    let v = PosParticleIndex::new([1, 2, 3]);
    assert_eq!(v.pos, [1, 2, 3]);
}
