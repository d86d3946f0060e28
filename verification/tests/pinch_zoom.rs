use idroid::math::size::Size;
use idroid::mvp_uniform_obj::{MVPUniform, MVPUniformObj, MAX_SCALE, SCALE_FLOOR};

#[test]
fn scale_limits_relate() {
    assert_eq!(SCALE_FLOOR, 700_000);
    assert!(SCALE_FLOOR <= 1_000_000 && 1_000_000 <= MAX_SCALE);
}

#[test]
fn zero_uniform_is_all_zero() {
    let u = MVPUniform::zero();
    assert_eq!(u.mvp_matrix.m00, 0);
    assert_eq!(u.mvp_matrix.m33, 0);
}

#[test]
fn new_composer_projects_the_viewport() {
    let obj = MVPUniformObj::new(Size::new(1000, 800));
    assert_eq!(obj.scale, 1_000_000);
    assert!(obj.pintch_start_location.is_none());
    // 2 / 1000 and 2 / 800, in millionths
    assert_eq!(obj.p_matrix.m00, 2000);
    assert_eq!(obj.p_matrix.m11, 2500);
    assert_eq!(obj.p_matrix.m22, 1_000_000);
    assert_eq!(obj.p_matrix.m33, 1_000_000);
    // base model-view is the identity
    assert_eq!(obj.base_mv_matrix.m00, 1_000_000);
    assert_eq!(obj.base_mv_matrix.m03, 0);
}

#[test]
fn changed_before_start_is_a_no_op() {
    let mut obj = MVPUniformObj::new(Size::new(1000, 800));
    let r = obj.pintch_changed((500_000, 500_000), 2_000_000);
    assert!(r.is_none());
    assert_eq!(obj.scale, 1_000_000);
    assert!(obj.pintch_start_location.is_none());
}

#[test]
fn unit_pinch_at_center_changes_nothing() {
    let mut obj = MVPUniformObj::new(Size::new(1000, 800));
    let before = obj.mvp_uniform();
    obj.pintch_start((500_000, 500_000), 1_000_000);
    let r = obj.pintch_changed((500_000, 500_000), 1_000_000);
    assert_eq!(obj.scale, 1_000_000);
    let u = r.unwrap();
    assert_eq!(u, before);
    assert_eq!(u.mvp_matrix, obj.p_matrix);
}

#[test]
fn inverse_deltas_restore_the_scale() {
    let mut obj = MVPUniformObj::new(Size::new(1000, 800));
    obj.pintch_start((500_000, 500_000), 1_000_000);
    obj.pintch_changed((500_000, 500_000), 2_000_000);
    assert_eq!(obj.scale, 2_000_000);
    obj.pintch_changed((500_000, 500_000), 500_000);
    assert_eq!(obj.scale, 1_000_000);
}

#[test]
fn pure_zoom_at_the_anchor_pans_nothing() {
    // viewport 1000 x 800, pinch anchored at (0.3, 0.4), zoomed by 1.5
    // without the centroid moving: the pan term is zero and only the
    // anchor offset shapes the translation column.
    let mut obj = MVPUniformObj::new(Size::new(1000, 800));
    obj.pintch_start((300_000, 400_000), 1_000_000);
    let r = obj.pintch_changed((300_000, 400_000), 1_500_000);
    assert_eq!(obj.scale, 1_500_000);
    let m = r.unwrap().mvp_matrix;
    // projection diag(2000, 2500) times the anchored view
    assert_eq!(m.m00, 3000);
    assert_eq!(m.m11, 3750);
    // translation: s * offset - offset, projected; the pan contribution
    // (location minus start) is zero
    assert_eq!(m.m03, 400);
    assert_eq!(m.m13, 250);
    assert_eq!(m.m22, 1_000_000);
    assert_eq!(m.m33, 1_000_000);
    assert_eq!(m.m01, 0);
    assert_eq!(m.m10, 0);
}

#[test]
fn zooming_out_clamps_at_the_floor() {
    let mut obj = MVPUniformObj::new(Size::new(1000, 800));
    obj.pintch_start((300_000, 400_000), 1_000_000);
    let r = obj.pintch_changed((300_000, 400_000), 500_000);
    // 1.0 * 0.5 = 0.5 < 0.7: clamped, and the view scales about the
    // center with no anchor translation
    assert_eq!(obj.scale, 700_000);
    let m = r.unwrap().mvp_matrix;
    assert_eq!(m.m00, 1400);
    assert_eq!(m.m11, 1750);
    assert_eq!(m.m03, 0);
    assert_eq!(m.m13, 0);
}

#[test]
fn sub_unit_scale_pans_nothing() {
    let mut obj = MVPUniformObj::new(Size::new(1000, 800));
    obj.pintch_start((100_000, 900_000), 1_000_000);
    let r = obj.pintch_changed((600_000, 200_000), 800_000);
    // 0.8 sits between the floor and one unit: centered scale only,
    // whatever the anchor and centroid say
    assert_eq!(obj.scale, 800_000);
    let m = r.unwrap().mvp_matrix;
    assert_eq!(m.m00, 1600);
    assert_eq!(m.m11, 2000);
    assert_eq!(m.m03, 0);
    assert_eq!(m.m13, 0);
}

#[test]
fn pinch_with_pan_translates_by_the_centroid_motion() {
    let mut obj = MVPUniformObj::new(Size::new(1000, 800));
    obj.pintch_start((500_000, 500_000), 1_000_000);
    // centered anchor, centroid drifts by (0.1, -0.1), scale doubles
    let r = obj.pintch_changed((600_000, 400_000), 2_000_000);
    assert_eq!(obj.scale, 2_000_000);
    let m = r.unwrap().mvp_matrix;
    // offset is zero, so the view translation is s * t: 0.2 and -0.2,
    // then the projection scales it
    assert_eq!(m.m00, 4000);
    assert_eq!(m.m11, 5000);
    assert_eq!(m.m03, 400);
    assert_eq!(m.m13, -500);
}
