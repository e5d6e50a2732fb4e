use kidar::camera::{Camera, DEPTH_FX};
use kidar::fixed::SCALE;
use kidar::vec3::Vec3;

fn test_camera() -> Camera {
    Camera::new(
        Vec3 { x: 0, y: 0, z: 0 },
        Vec3 { x: 0, y: 0, z: SCALE },
        Vec3 { x: 0, y: SCALE, z: 0 },
        51471,
        800,
        600,
        6554,
        100 * SCALE,
        SCALE,
    )
}

#[test]
fn uniform_is_identical_across_two_calls_without_mutation() {
    let c = test_camera();
    let a = c.uniform_obj();
    let b = c.uniform_obj();
    assert_eq!(a, b);
}

#[test]
fn model_matrix_scales_by_viewport_and_compresses_depth() {
    let c = test_camera();
    let m = c.model_matrix();
    // 2 / 800 and 2 / 600 in fixed point, truncated.
    assert_eq!(m.m00, 2 * SCALE / 800);
    assert_eq!(m.m11, 2 * SCALE / 600);
    assert_eq!(m.m22, DEPTH_FX);
    assert_eq!(m.m33, SCALE);
    // The camera sits at the origin: no translation.
    assert_eq!(m.m03, 0);
    assert_eq!(m.m13, 0);
    assert_eq!(m.m23, 0);
}

#[test]
fn model_matrix_translates_the_camera_to_the_origin() {
    let mut c = test_camera();
    c.position = Vec3 { x: 100 * SCALE, y: -50 * SCALE, z: 10 * SCALE };
    let m = c.model_matrix();
    // Translation is minus position times the matching scale factor.
    assert_eq!(m.m03, -100 * SCALE * m.m00 / SCALE);
    assert_eq!(m.m13, 50 * SCALE * m.m11 / SCALE);
    assert_eq!(m.m23, -10 * DEPTH_FX);
}

#[test]
fn view_matrix_rows_are_an_orthogonal_basis() {
    let mut c = test_camera();
    c.active_move(true);
    c.look_rotate((30000, 20000), SCALE);
    c.update(SCALE);
    let v = c.view_matrix();
    let up = c.up;
    let t = c.target;
    // Row 0 is the right direction: orthogonal to up and to the look
    // direction within the documented rounding bound.
    let dot_up = (v.m00 as i128) * (up.x as i128) + (v.m01 as i128) * (up.y as i128)
        + (v.m02 as i128) * (up.z as i128);
    let dot_t = (v.m00 as i128) * (t.x as i128) + (v.m01 as i128) * (t.y as i128)
        + (v.m02 as i128) * (t.z as i128);
    let bound_up = (up.x.abs() + up.y.abs() + up.z.abs()) as i128;
    let bound_t = (t.x.abs() + t.y.abs() + t.z.abs()) as i128;
    assert!(dot_up.abs() <= bound_up);
    assert!(dot_t.abs() <= bound_t);
    // Row 2 is the negated look direction.
    assert_eq!(v.m20, -t.x);
    assert_eq!(v.m21, -t.y);
    assert_eq!(v.m22, -t.z);
    assert_eq!(v.m33, SCALE);
}

#[test]
fn projection_matrix_has_the_perspective_shape() {
    let c = test_camera();
    let p = c.projection_matrix();
    // The focal term is cot(fov / 2); for 45 degrees that is about 2.414.
    assert!(p.m00 > 2 * SCALE && p.m00 < 3 * SCALE);
    assert_eq!(p.m00, p.m11);
    assert_eq!(p.m32, -SCALE);
    assert_eq!(p.m33, 0);
    // Depth terms are negative for 0 < near < far.
    assert!(p.m22 < 0);
    assert!(p.m23 < 0);
}

#[test]
fn frame_skips_degenerate_viewports_and_recovers() {
    let mut c = test_camera();
    c.active_move(true);
    c.set_screen_size(0, 600);
    let skipped = c.frame(SCALE);
    assert!(skipped.is_none());
    c.set_screen_size(800, 600);
    let drawn = c.frame(SCALE);
    assert!(drawn.is_some());
    let u = drawn.unwrap();
    assert_eq!(u.model.m00, 2 * SCALE / 800);
    assert_eq!(u.view.m33, SCALE);
}

#[test]
fn uniform_words_hold_the_three_matrices_column_major() {
    let c = test_camera();
    let u = c.uniform_obj();
    let words = u.to_words();
    assert_eq!(words.len(), 48);
    assert_eq!(words[0], u.proj.m00);
    assert_eq!(words[1], u.proj.m10);
    assert_eq!(words[4], u.proj.m01);
    assert_eq!(words[15], u.proj.m33);
    assert_eq!(words[16], u.view.m00);
    assert_eq!(words[32], u.model.m00);
    assert_eq!(words[47], u.model.m33);
}
