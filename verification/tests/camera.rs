use kidar::camera::{Camera, CameraMove, CursorRequest, InputEvent};
use kidar::fixed::{PI_FX, PITCH_LIMIT_FX, SCALE};
use kidar::vec3::Vec3;

fn test_camera() -> Camera {
    Camera::new(
        Vec3 { x: 0, y: 0, z: 0 },
        Vec3 { x: 0, y: 0, z: -SCALE },
        Vec3 { x: 0, y: SCALE, z: 0 },
        51471, // 45 degrees in fixed-point radians
        800,
        600,
        6554,        // 0.1 world units
        100 * SCALE, // 100 world units
        SCALE,       // sensitivity 1.0
    )
}

#[test]
fn new_camera_is_inactive_with_cleared_flags() {
    let c = test_camera();
    assert!(!c.active_status);
    assert!(!c.is_forward && !c.is_backward && !c.is_left && !c.is_right && !c.is_up && !c.is_down);
    assert_eq!(c.yaw, 0);
    assert_eq!(c.pitch, 0);
    assert_eq!(c.speed, 5 * SCALE);
    assert_eq!(c.screen_width, 800);
    assert_eq!(c.screen_height, 600);
}

#[test]
fn new_camera_normalizes_the_look_direction() {
    let c = test_camera();
    assert_eq!(c.target.x, 0);
    assert_eq!(c.target.y, 0);
    assert_eq!(c.target.z, -SCALE);
}

#[test]
fn pitch_clamps_on_large_upward_delta() {
    let mut c = test_camera();
    c.active_move(true);
    c.look_rotate((0, 1 << 20), SCALE);
    assert_eq!(c.pitch, PITCH_LIMIT_FX);
}

#[test]
fn pitch_clamps_on_large_downward_delta() {
    let mut c = test_camera();
    c.active_move(true);
    c.look_rotate((0, -(1 << 20)), SCALE);
    assert_eq!(c.pitch, -PITCH_LIMIT_FX);
}

#[test]
fn look_rotate_is_exact_for_unit_sensitivity_and_unit_dt() {
    let mut c = test_camera();
    c.active_move(true);
    c.look_rotate((100, 50), SCALE);
    assert_eq!(c.yaw, 100);
    assert_eq!(c.pitch, 50);
}

#[test]
fn inactive_camera_ignores_look_and_update() {
    // While inactive, any deltas and any elapsed time at all leave the
    // state untouched: the bounds on look input apply only when active.
    let mut c = test_camera();
    for _ in 0..5 {
        c.look_rotate((12345, -6789), SCALE);
        c.look_rotate((i64::MAX, i64::MIN), -1);
        c.update(SCALE);
        c.update(i64::MIN);
    }
    assert_eq!(c.position, Vec3 { x: 0, y: 0, z: 0 });
    assert_eq!(c.yaw, 0);
    assert_eq!(c.pitch, 0);
}

#[test]
fn zero_angles_look_along_positive_z() {
    let mut c = test_camera();
    c.active_move(true);
    c.update(SCALE);
    assert_eq!(c.target, Vec3 { x: 0, y: 0, z: SCALE });
}

#[test]
fn one_forward_tick_at_speed_five_moves_five_units() {
    // Looking along -z (yaw = pi), holding the forward key for one tick
    // at the default speed moves the camera to (0, 0, -5).
    let mut c = test_camera();
    c.active_move(true);
    c.yaw = PI_FX;
    c.is_forward = true;
    c.update(SCALE);
    assert_eq!(c.target, Vec3 { x: 0, y: 0, z: -SCALE });
    assert_eq!(c.position, Vec3 { x: 0, y: 0, z: -5 * SCALE });
}

#[test]
fn diagonal_movement_adds_axes_without_normalizing() {
    let mut c = test_camera();
    c.active_move(true);
    c.is_forward = true;
    c.is_right = true;
    c.update(SCALE);
    // Look direction +z, right direction +x: both axes advance by the
    // full speed, so the diagonal is sqrt(2) times as fast by design.
    assert_eq!(c.position, Vec3 { x: 5 * SCALE, y: 0, z: 5 * SCALE });
}

#[test]
fn vertical_movement_follows_the_up_vector() {
    let mut c = test_camera();
    c.active_move(true);
    c.is_up = true;
    c.update(SCALE);
    assert_eq!(c.position, Vec3 { x: 0, y: 5 * SCALE, z: 0 });
}

#[test]
fn derived_look_direction_is_unit_length_within_tolerance() {
    let mut c = test_camera();
    c.active_move(true);
    c.look_rotate((30000, 20000), SCALE);
    c.update(SCALE);
    let t = c.target;
    let n = (t.x as i128) * (t.x as i128) + (t.y as i128) * (t.y as i128)
        + (t.z as i128) * (t.z as i128);
    let s = SCALE as i128;
    assert!(n >= s * s - 6 * s);
    assert!(n <= s * s + 2 * s + 3);
}

#[test]
fn activation_happens_exactly_once() {
    let mut c = test_camera();
    let first = c.handle_input(InputEvent::Activate, 0);
    assert_eq!(first, CursorRequest::GrabAndHide);
    assert!(c.active_status);
    let again = c.handle_input(InputEvent::Activate, 0);
    assert_eq!(again, CursorRequest::Keep);
    assert!(c.active_status);
}

#[test]
fn escape_deactivates_and_releases_the_cursor() {
    let mut c = test_camera();
    c.handle_input(InputEvent::Activate, 0);
    let r = c.handle_input(InputEvent::Deactivate, 0);
    assert_eq!(r, CursorRequest::ReleaseAndShow);
    assert!(!c.active_status);
}

#[test]
fn focus_loss_deactivates_and_releases_the_cursor() {
    let mut c = test_camera();
    c.handle_input(InputEvent::Activate, 0);
    let r = c.handle_input(InputEvent::FocusLost, 0);
    assert_eq!(r, CursorRequest::ReleaseAndShow);
    assert!(!c.active_status);
}

#[test]
fn deactivation_while_inactive_asks_for_nothing() {
    let mut c = test_camera();
    let r = c.handle_input(InputEvent::Deactivate, 0);
    assert_eq!(r, CursorRequest::Keep);
    let r2 = c.handle_input(InputEvent::FocusLost, 0);
    assert_eq!(r2, CursorRequest::Keep);
    assert!(!c.active_status);
}

#[test]
fn movement_keys_are_level_triggered() {
    let mut c = test_camera();
    c.handle_input(InputEvent::Move(CameraMove::Forward, true), 0);
    assert!(c.is_forward);
    c.handle_input(InputEvent::Move(CameraMove::Forward, false), 0);
    assert!(!c.is_forward);
    c.handle_input(InputEvent::Move(CameraMove::Down, true), 0);
    assert!(c.is_down);
    c.handle_input(InputEvent::Move(CameraMove::Hold, true), 0);
    assert!(!c.is_forward && !c.is_backward && !c.is_left && !c.is_right && !c.is_up);
}

#[test]
fn mouse_look_events_rotate_only_while_active() {
    let mut c = test_camera();
    c.handle_input(InputEvent::MouseLook(500, 300), SCALE);
    assert_eq!(c.yaw, 0);
    assert_eq!(c.pitch, 0);
    c.handle_input(InputEvent::Activate, 0);
    c.handle_input(InputEvent::MouseLook(500, 300), SCALE);
    assert_eq!(c.yaw, 500);
    assert_eq!(c.pitch, 300);
}

#[test]
fn look_direction_at_the_pitch_clamp_points_up_not_ahead() {
    // At the clamped maximum pitch the camera looks almost straight up:
    // about (0, 0.995, 0.0998). It must not snap to +z.
    let mut c = test_camera();
    c.active_move(true);
    c.pitch = PITCH_LIMIT_FX;
    c.update(SCALE);
    assert_eq!(c.target.x, 0);
    assert!(c.target.y >= 65000 && c.target.y <= SCALE);
    assert!(c.target.z >= 6300 && c.target.z <= 6800);
    assert_ne!(c.target, Vec3 { x: 0, y: 0, z: SCALE });
}

#[test]
fn look_direction_at_quarter_turn_yaw_points_sideways() {
    // At yaw of a quarter turn the camera looks along +x, not +z.
    let mut c = test_camera();
    c.active_move(true);
    c.yaw = PI_FX / 2;
    c.update(SCALE);
    assert!(c.target.x > 65000);
    assert_eq!(c.target.y, 0);
    assert!(c.target.z.abs() < 700);
}

#[test]
fn look_direction_at_clamped_pitch_stays_unit_length() {
    let mut c = test_camera();
    c.active_move(true);
    c.pitch = -PITCH_LIMIT_FX;
    c.yaw = PI_FX / 2;
    c.update(SCALE);
    let t = c.target;
    let n = (t.x as i128) * (t.x as i128) + (t.y as i128) * (t.y as i128)
        + (t.z as i128) * (t.z as i128);
    let s = SCALE as i128;
    assert!(n >= s * s - 6 * s);
    assert!(n <= s * s + 2 * s + 3);
}

#[test]
fn new_camera_aims_at_a_target_point_closer_than_one_unit() {
    // A 3-4-5 triangle well inside one world unit still normalizes.
    let c = Camera::new(
        Vec3 { x: 0, y: 0, z: 0 },
        Vec3 { x: 3, y: -4, z: 0 },
        Vec3 { x: 0, y: SCALE, z: 0 },
        51471,
        800,
        600,
        6554,
        100 * SCALE,
        SCALE,
    );
    assert_eq!(c.target, Vec3 { x: 39321, y: -52428, z: 0 });
}

#[test]
fn new_camera_falls_back_to_z_only_when_target_equals_position() {
    let c = Camera::new(
        Vec3 { x: 7 * SCALE, y: 0, z: 0 },
        Vec3 { x: 7 * SCALE, y: 0, z: 0 },
        Vec3 { x: 0, y: SCALE, z: 0 },
        51471,
        800,
        600,
        6554,
        100 * SCALE,
        SCALE,
    );
    assert_eq!(c.target, Vec3 { x: 0, y: 0, z: SCALE });
}
