//! The free-flying camera and its per-frame protocol.
//!
//! The camera owns a pose (position, yaw, pitch, a unit look direction),
//! projection constants, the viewport size, tuning constants, and the
//! activation flag plus six level-triggered movement flags. Input events
//! mutate that state; each frame derives the model, view and projection
//! matrices and packs them into a [`CameraUniform`].
//!
//! Conventions, fixed here once:
//! - at `yaw == 0, pitch == 0` the look direction is `+z`, i.e.
//!   `(0, 0, SCALE)`;
//! - movement is integrated per tick and is *not* scaled by the elapsed
//!   time, while mouse look is: movement speed is deliberately tied to
//!   the tick rate;
//! - the world is bounded: positions clamp to `POS_LIMIT_FX`, so that no
//!   sequence of ticks overflows a coordinate.

use crate::fixed::{
    clamp_i64, clamp_s, fx_div_by, fx_mul, fx_mul_div, iabs, lemma_product_div_fits, tdiv,
    wrap_s, wrap_angle, PITCH_LIMIT_FX, PI_FX, SCALE,
};
use crate::mat4::{bounded_s, cols_s, mat_mul_s, Mat4};
use crate::trig::{cos_s, sin_cos_fx, sin_s};
use crate::vec3::{
    cross_vs, dot_s, lemma_cross_orthogonal, lemma_normalize_orthogonal,
    lemma_normalize_unit_band, norm_sq_s, unit_band, unit_or_s, Vec3,
};
use vstd::arithmetic::div_mod::{
    lemma_div_is_ordered_by_denominator, lemma_div_multiples_vanish, lemma_div_nonincreasing,
};
use vstd::prelude::*;

verus! {

/// Largest world-coordinate magnitude the camera ever stores.
pub const POS_LIMIT_FX: i64 = 0x2_0000_0000;

/// Largest movement speed the camera accepts.
pub const SPEED_LIMIT_FX: i64 = 1000 * SCALE;

/// Largest mouse sensitivity the camera accepts.
pub const SENS_LIMIT_FX: i64 = 1000 * SCALE;

/// Largest elapsed time (one hour) a single tick accepts.
pub const DT_LIMIT_FX: i64 = 3600 * SCALE;

/// Largest raw mouse delta a single look event accepts.
pub const LOOK_DELTA_LIMIT: i64 = 0x10_0000;

/// Largest far-plane distance the camera accepts.
pub const FAR_LIMIT_FX: i64 = 1_000_000 * SCALE;

/// The fixed depth compression factor of the model matrix: one
/// thousandth, rounded down to fixed point.
pub const DEPTH_FX: i64 = 65;

/// A movement direction a key can hold.
#[derive(Clone, Copy, Debug, PartialEq, Eq, Structural)]
pub enum CameraMove {
    Forward,
    Backward,
    Left,
    Right,
    Up,
    Down,
    Hold,
}

/// What the window shell should do with the OS cursor after an event.
#[derive(Clone, Copy, Debug, PartialEq, Eq, Structural)]
pub enum CursorRequest {
    GrabAndHide,
    ReleaseAndShow,
    Keep,
}

/// One input event, as the window shell hands it over in plain values.
#[derive(Clone, Copy, Debug, PartialEq, Eq, Structural)]
pub enum InputEvent {
    /// A movement key went down (`true`) or up (`false`).
    Move(CameraMove, bool),
    /// The left mouse button was pressed.
    Activate,
    /// The escape key was pressed.
    Deactivate,
    /// The window lost focus.
    FocusLost,
    /// A raw relative mouse motion, in device units.
    MouseLook(i64, i64),
}

/// The per-frame uniform record: the composed
/// projection-view-model matrix in the slot the shader transforms with,
/// and the view and model matrices on their own.
#[derive(Clone, Copy, Debug, PartialEq, Eq, Structural)]
pub struct CameraUniform {
    pub proj: Mat4,
    pub view: Mat4,
    pub model: Mat4,
}

/// The free-flying camera.
#[derive(Clone, Copy, Debug, PartialEq, Eq, Structural)]
pub struct Camera {
    /// Whether look and movement input is applied.
    pub active_status: bool,
    /// World-space position.
    pub position: Vec3,
    /// The unit look direction (named after the construction-time target
    /// it is derived from).
    pub target: Vec3,
    /// The nominal world up direction.
    pub up: Vec3,
    /// Vertical field of view, radians.
    pub fov: i64,
    /// Viewport width in pixels.
    pub screen_width: u32,
    /// Viewport height in pixels.
    pub screen_height: u32,
    /// Near clip distance.
    pub near: i64,
    /// Far clip distance.
    pub far: i64,
    /// Mouse-look sensitivity.
    pub sensitivity: i64,
    /// Horizontal look angle, radians, kept on the principal turn.
    pub yaw: i64,
    /// Vertical look angle, radians, kept clear of the poles.
    pub pitch: i64,
    /// Movement speed, world units per tick.
    pub speed: i64,
    pub is_forward: bool,
    pub is_backward: bool,
    pub is_left: bool,
    pub is_right: bool,
    pub is_up: bool,
    pub is_down: bool,
}

/// The unit `+z` direction, the fallback look direction.
pub open spec fn unit_z_s() -> Vec3 {
    Vec3 { x: 0, y: 0, z: SCALE }
}

/// The unit `+x` direction, the fallback right direction.
pub open spec fn unit_x_s() -> Vec3 {
    Vec3 { x: SCALE, y: 0, z: 0 }
}

/// `1` for a held flag, `0` otherwise.
pub open spec fn flag_amount(b: bool) -> int {
    if b {
        1
    } else {
        0
    }
}

impl Camera {
    /// The camera's invariant: every mutating method keeps it.
    pub open spec fn wf(self) -> bool {
        &&& iabs(self.position.x as int) <= POS_LIMIT_FX
        &&& iabs(self.position.y as int) <= POS_LIMIT_FX
        &&& iabs(self.position.z as int) <= POS_LIMIT_FX
        &&& iabs(self.target.x as int) <= SCALE
        &&& iabs(self.target.y as int) <= SCALE
        &&& iabs(self.target.z as int) <= SCALE
        &&& unit_band(self.target)
        &&& iabs(self.up.x as int) <= SCALE
        &&& iabs(self.up.y as int) <= SCALE
        &&& iabs(self.up.z as int) <= SCALE
        &&& -PI_FX < self.yaw <= PI_FX
        &&& -PITCH_LIMIT_FX <= self.pitch <= PITCH_LIMIT_FX
        &&& 0 < self.fov <= PI_FX
        &&& 0 < self.near
        &&& self.near + SCALE <= self.far
        &&& self.far <= FAR_LIMIT_FX
        &&& 0 <= self.sensitivity <= SENS_LIMIT_FX
        &&& 0 <= self.speed <= SPEED_LIMIT_FX
    }
}

/// The look direction spelled by a yaw and a pitch, before normalization:
/// the spherical-to-Cartesian conversion. The components are kept at the
/// raw product scale (a full-length component is `SCALE * SCALE`), not
/// scaled back: the vector's magnitude then clears the degenerate-
/// direction guard of the normalization by a factor of `SCALE`, so every
/// admitted angle pair normalizes and none falls back.
pub open spec fn dir_from_angles_s(yaw: int, pitch: int) -> Vec3 {
    Vec3 {
        x: (cos_s(pitch) * sin_s(yaw)) as i64,
        y: (sin_s(pitch) * SCALE) as i64,
        z: (cos_s(pitch) * cos_s(yaw)) as i64,
    }
}

/// The unit look direction of a yaw and a pitch, with the degenerate
/// guard falling back to `+z`.
pub open spec fn target_from_angles_s(yaw: int, pitch: int) -> Vec3 {
    unit_or_s(dir_from_angles_s(yaw, pitch), unit_z_s())
}

/// The initial look direction: from the camera position toward the
/// target point, normalized. A difference shorter than one world unit is
/// raised by `SCALE` first so that it, too, clears the degenerate guard:
/// only a target point exactly at the position falls back to `+z`.
pub open spec fn aim_s(position: Vec3, target_point: Vec3) -> Vec3 {
    let diff = Vec3 {
        x: (target_point.x - position.x) as i64,
        y: (target_point.y - position.y) as i64,
        z: (target_point.z - position.z) as i64,
    };
    if norm_sq_s(diff) < (SCALE as int) * (SCALE as int) {
        let raised = Vec3 {
            x: (diff.x * SCALE) as i64,
            y: (diff.y * SCALE) as i64,
            z: (diff.z * SCALE) as i64,
        };
        unit_or_s(raised, unit_z_s())
    } else {
        unit_or_s(diff, unit_z_s())
    }
}

/// The unit right direction of an up vector and a look direction, with
/// the degenerate (parallel) guard falling back to `+x`.
pub open spec fn right_of_s(up: Vec3, target: Vec3) -> Vec3 {
    unit_or_s(cross_vs(up, target), unit_x_s())
}

/// A camera with a new position and look direction, all else equal.
pub open spec fn with_pose_s(c: Camera, position: Vec3, target: Vec3) -> Camera {
    Camera { position, target, ..c }
}

/// A camera with new look angles, all else equal.
pub open spec fn with_angles_s(c: Camera, yaw: i64, pitch: i64) -> Camera {
    Camera { yaw, pitch, ..c }
}

/// One movement component: a unit-direction component scaled by a
/// movement amount.
pub open spec fn step_s(dir_c: int, amt: int) -> int {
    tdiv(dir_c * amt, SCALE as int)
}

/// What one tick of movement integration does to the camera. Inactive
/// cameras are left exactly as they are; an active one re-derives its
/// look direction from the angles and moves along look, right and up by
/// the held flags times the speed, the position staying inside the world
/// bounds.
pub open spec fn update_spec(c: Camera) -> Camera {
    if !c.active_status {
        c
    } else {
        let target = target_from_angles_s(c.yaw as int, c.pitch as int);
        let right = right_of_s(c.up, target);
        let fwd = (flag_amount(c.is_forward) - flag_amount(c.is_backward)) * c.speed;
        let side = (flag_amount(c.is_right) - flag_amount(c.is_left)) * c.speed;
        let vert = (flag_amount(c.is_up) - flag_amount(c.is_down)) * c.speed;
        let position = Vec3 {
            x: clamp_s(
                c.position.x + step_s(target.x as int, fwd) + step_s(right.x as int, side)
                    + step_s(c.up.x as int, vert),
                -POS_LIMIT_FX as int,
                POS_LIMIT_FX as int,
            ) as i64,
            y: clamp_s(
                c.position.y + step_s(target.y as int, fwd) + step_s(right.y as int, side)
                    + step_s(c.up.y as int, vert),
                -POS_LIMIT_FX as int,
                POS_LIMIT_FX as int,
            ) as i64,
            z: clamp_s(
                c.position.z + step_s(target.z as int, fwd) + step_s(right.z as int, side)
                    + step_s(c.up.z as int, vert),
                -POS_LIMIT_FX as int,
                POS_LIMIT_FX as int,
            ) as i64,
        };
        with_pose_s(c, position, target)
    }
}

/// What one mouse-look event does to the camera: nothing while inactive;
/// otherwise both angles advance by delta times sensitivity times
/// elapsed time, yaw is reduced to the principal turn and pitch is
/// clamped clear of the poles.
pub open spec fn look_rotate_spec(c: Camera, dx: int, dy: int, dt: int) -> Camera {
    if !c.active_status {
        c
    } else {
        let yaw2 = wrap_s(c.yaw + tdiv(tdiv(dx * c.sensitivity, SCALE as int) * dt, SCALE as int));
        let pitch2 = clamp_s(
            c.pitch + tdiv(tdiv(dy * c.sensitivity, SCALE as int) * dt, SCALE as int),
            -PITCH_LIMIT_FX as int,
            PITCH_LIMIT_FX as int,
        );
        with_angles_s(c, yaw2 as i64, pitch2 as i64)
    }
}

impl Camera {
    /// A camera at a pose, looking from `position` toward `target_point`,
    /// inactive, with cleared flags, zero angles and the default speed.
    pub fn new(
        position: Vec3,
        target_point: Vec3,
        up: Vec3,
        fov: i64,
        screen_width: u32,
        screen_height: u32,
        near: i64,
        far: i64,
        sensitivity: i64,
    ) -> (c: Camera)
        requires
            iabs(position.x as int) <= POS_LIMIT_FX,
            iabs(position.y as int) <= POS_LIMIT_FX,
            iabs(position.z as int) <= POS_LIMIT_FX,
            iabs(target_point.x as int) <= POS_LIMIT_FX,
            iabs(target_point.y as int) <= POS_LIMIT_FX,
            iabs(target_point.z as int) <= POS_LIMIT_FX,
            iabs(up.x as int) <= SCALE,
            iabs(up.y as int) <= SCALE,
            iabs(up.z as int) <= SCALE,
            0 < fov <= PI_FX,
            0 < near,
            near + SCALE <= far,
            far <= FAR_LIMIT_FX,
            0 <= sensitivity <= SENS_LIMIT_FX,
        ensures
            c.wf(),
            !c.active_status,
            c.position == position,
            c.target == aim_s(position, target_point),
            c.up == up,
            c.fov == fov,
            c.screen_width == screen_width,
            c.screen_height == screen_height,
            c.near == near,
            c.far == far,
            c.sensitivity == sensitivity,
            c.yaw == 0,
            c.pitch == 0,
            c.speed == 5 * SCALE,
            !c.is_forward && !c.is_backward && !c.is_left && !c.is_right && !c.is_up
                && !c.is_down,
    {
        let diff = Vec3 {
            x: target_point.x - position.x,
            y: target_point.y - position.y,
            z: target_point.z - position.z,
        };
        let fallback = Vec3 { x: 0, y: 0, z: SCALE };
        proof {
            assert(unit_band(fallback));
        }
        let n = diff.norm_sq();
        let target = if n < 0x1_0000_0000u128 {
            proof {
                assert(iabs(diff.x as int) < SCALE && iabs(diff.y as int) < SCALE
                    && iabs(diff.z as int) < SCALE
                    && iabs(diff.x as int * SCALE as int) < 0x1_0000_0000
                    && iabs(diff.y as int * SCALE as int) < 0x1_0000_0000
                    && iabs(diff.z as int * SCALE as int) < 0x1_0000_0000) by (nonlinear_arith)
                    requires
                        (diff.x as int * diff.x as int + diff.y as int * diff.y as int
                            + diff.z as int * diff.z as int) < ((SCALE as int) * (SCALE as int)),
                        SCALE as int > 0,
                ;
            }
            let raised = Vec3 { x: diff.x * SCALE, y: diff.y * SCALE, z: diff.z * SCALE };
            raised.unit_or(fallback)
        } else {
            diff.unit_or(fallback)
        };
        Camera {
            active_status: false,
            position,
            target,
            up,
            fov,
            screen_width,
            screen_height,
            near,
            far,
            sensitivity,
            yaw: 0,
            pitch: 0,
            speed: 5 * SCALE,
            is_forward: false,
            is_backward: false,
            is_left: false,
            is_right: false,
            is_up: false,
            is_down: false,
        }
    }

    /// Switches look-and-move input on or off.
    pub fn active_move(&mut self, status: bool)
        ensures
            *final(self) == (Camera { active_status: status, ..*old(self) }),
            old(self).wf() ==> final(self).wf(),
    {
        self.active_status = status;
    }

    /// Records a new viewport size; matrices pick it up on the next frame.
    pub fn set_screen_size(&mut self, screen_width: u32, screen_height: u32)
        ensures
            *final(self) == (Camera { screen_width, screen_height, ..*old(self) }),
            old(self).wf() ==> final(self).wf(),
    {
        self.screen_width = screen_width;
        self.screen_height = screen_height;
    }

    /// Applies one raw mouse motion to the look angles.
    pub fn look_rotate(&mut self, mouse_delta: (i64, i64), dt: i64)
        requires
            old(self).wf(),
            old(self).active_status ==> iabs(mouse_delta.0 as int) <= LOOK_DELTA_LIMIT,
            old(self).active_status ==> iabs(mouse_delta.1 as int) <= LOOK_DELTA_LIMIT,
            old(self).active_status ==> 0 <= dt <= DT_LIMIT_FX,
        ensures
            final(self).wf(),
            *final(self) == look_rotate_spec(
                *old(self),
                mouse_delta.0 as int,
                mouse_delta.1 as int,
                dt as int,
            ),
            !old(self).active_status ==> *final(self) == *old(self),
            -PITCH_LIMIT_FX <= final(self).pitch <= PITCH_LIMIT_FX,
    {
        if !self.active_status {
            return ;
        }
        proof {
            lemma_product_div_fits(
                mouse_delta.0 as int,
                self.sensitivity as int,
                SCALE as int,
                LOOK_DELTA_LIMIT as int,
                SENS_LIMIT_FX as int,
            );
            lemma_product_div_fits(
                mouse_delta.1 as int,
                self.sensitivity as int,
                SCALE as int,
                LOOK_DELTA_LIMIT as int,
                SENS_LIMIT_FX as int,
            );
        }
        let gx = fx_mul_div(mouse_delta.0, self.sensitivity, SCALE);
        let gy = fx_mul_div(mouse_delta.1, self.sensitivity, SCALE);
        proof {
            lemma_product_div_fits(
                gx as int,
                dt as int,
                SCALE as int,
                0x4000_0000_0000,
                DT_LIMIT_FX as int,
            );
            lemma_product_div_fits(
                gy as int,
                dt as int,
                SCALE as int,
                0x4000_0000_0000,
                DT_LIMIT_FX as int,
            );
        }
        let dyaw = fx_mul_div(gx, dt, SCALE);
        let dpitch = fx_mul_div(gy, dt, SCALE);
        let yaw2 = wrap_angle(self.yaw + dyaw);
        let pitch2 = clamp_i64(self.pitch + dpitch, -PITCH_LIMIT_FX, PITCH_LIMIT_FX);
        self.yaw = yaw2;
        self.pitch = pitch2;
    }

    /// One tick of movement integration. The elapsed time is accepted
    /// for the tick protocol's shape but deliberately not applied:
    /// movement advances by whole ticks.
    #[verifier::rlimit(60)]
    pub fn update(&mut self, dt: i64)
        requires
            old(self).wf(),
        ensures
            final(self).wf(),
            *final(self) == update_spec(*old(self)),
            !old(self).active_status ==> *final(self) == *old(self),
    {
        if !self.active_status {
            return ;
        }
        let (sy, cy) = sin_cos_fx(self.yaw);
        let (sp, cp) = sin_cos_fx(self.pitch);
        proof {
            assert(iabs(cp as int * sy as int) <= 0x1_0000_0000
                && iabs(sp as int * SCALE as int) <= 0x1_0000_0000
                && iabs(cp as int * cy as int) <= 0x1_0000_0000) by (nonlinear_arith)
                requires
                    iabs(cp as int) <= SCALE,
                    iabs(sy as int) <= SCALE,
                    iabs(sp as int) <= SCALE,
                    iabs(cy as int) <= SCALE,
            ;
        }
        let dir = Vec3 { x: cp * sy, y: sp * SCALE, z: cp * cy };
        let target = dir.unit_or(Vec3 { x: 0, y: 0, z: SCALE });
        let rightv = self.up.cross(&target);
        let right = rightv.unit_or(Vec3 { x: SCALE, y: 0, z: 0 });
        let ff: i64 = if self.is_forward {
            1
        } else {
            0
        };
        let fb: i64 = if self.is_backward {
            1
        } else {
            0
        };
        let fl: i64 = if self.is_left {
            1
        } else {
            0
        };
        let fr: i64 = if self.is_right {
            1
        } else {
            0
        };
        let fu: i64 = if self.is_up {
            1
        } else {
            0
        };
        let fd: i64 = if self.is_down {
            1
        } else {
            0
        };
        proof {
            assert(-SPEED_LIMIT_FX <= (ff - fb) * self.speed <= SPEED_LIMIT_FX
                && -SPEED_LIMIT_FX <= (fr - fl) * self.speed <= SPEED_LIMIT_FX
                && -SPEED_LIMIT_FX <= (fu - fd) * self.speed <= SPEED_LIMIT_FX)
                by (nonlinear_arith)
                requires
                    -1 <= ff - fb <= 1,
                    -1 <= fr - fl <= 1,
                    -1 <= fu - fd <= 1,
                    0 <= self.speed <= SPEED_LIMIT_FX,
            ;
        }
        let fwd_amt = (ff - fb) * self.speed;
        let side_amt = (fr - fl) * self.speed;
        let vert_amt = (fu - fd) * self.speed;
        let px = self.position.x + step(target.x, fwd_amt) + step(right.x, side_amt)
            + step(self.up.x, vert_amt);
        let py = self.position.y + step(target.y, fwd_amt) + step(right.y, side_amt)
            + step(self.up.y, vert_amt);
        let pz = self.position.z + step(target.z, fwd_amt) + step(right.z, side_amt)
            + step(self.up.z, vert_amt);
        self.position = Vec3 {
            x: clamp_i64(px, -POS_LIMIT_FX, POS_LIMIT_FX),
            y: clamp_i64(py, -POS_LIMIT_FX, POS_LIMIT_FX),
            z: clamp_i64(pz, -POS_LIMIT_FX, POS_LIMIT_FX),
        };
        self.target = target;
    }
}

/// The model matrix: a world-to-local rescaling. The world uses large
/// coordinates, so `x` and `y` shrink by two over the viewport size, depth
/// compresses by a fixed thousandth, and the camera position is translated
/// to the origin with the same factors, keeping the projection's depth
/// range fixed. Meaningful for a nonzero viewport.
pub open spec fn model_matrix_s(c: Camera) -> Mat4 {
    let w = tdiv(2 * SCALE, c.screen_width as int);
    let h = tdiv(2 * SCALE, c.screen_height as int);
    Mat4 {
        m00: w as i64,
        m01: 0,
        m02: 0,
        m03: tdiv(-(c.position.x as int) * w, SCALE as int) as i64,
        m10: 0,
        m11: h as i64,
        m12: 0,
        m13: tdiv(-(c.position.y as int) * h, SCALE as int) as i64,
        m20: 0,
        m21: 0,
        m22: DEPTH_FX,
        m23: tdiv(-(c.position.z as int) * DEPTH_FX, SCALE as int) as i64,
        m30: 0,
        m31: 0,
        m32: 0,
        m33: SCALE,
    }
}

/// The view matrix: a pure rotation whose rows are the right direction,
/// the true up direction, and the negated look direction; translation is
/// already folded into the model matrix.
pub open spec fn view_matrix_s(c: Camera) -> Mat4 {
    let xa = right_of_s(c.up, c.target);
    let yr = cross_vs(c.target, xa);
    let ya = Vec3 {
        x: tdiv(yr.x as int, SCALE as int) as i64,
        y: tdiv(yr.y as int, SCALE as int) as i64,
        z: tdiv(yr.z as int, SCALE as int) as i64,
    };
    Mat4 {
        m00: xa.x,
        m01: xa.y,
        m02: xa.z,
        m03: 0,
        m10: ya.x,
        m11: ya.y,
        m12: ya.z,
        m13: 0,
        m20: (-(c.target.x as int)) as i64,
        m21: (-(c.target.y as int)) as i64,
        m22: (-(c.target.z as int)) as i64,
        m23: 0,
        m30: 0,
        m31: 0,
        m32: 0,
        m33: SCALE,
    }
}

/// The projection matrix: a right-handed perspective projection with the
/// aspect ratio fixed at one (the model matrix already folds in the
/// viewport proportions). The focal term is the cotangent of half the
/// field of view, with a fallback of one if the half-angle sine
/// degenerates to zero or below.
pub open spec fn projection_matrix_s(c: Camera) -> Mat4 {
    let half = tdiv(c.fov as int, 2);
    let sh = sin_s(half);
    let ch = cos_s(half);
    let f = if sh <= 0 {
        SCALE as int
    } else {
        tdiv(ch * SCALE, sh)
    };
    let za = tdiv((c.far + c.near) * (-SCALE as int), c.far - c.near);
    let zb = -2 * tdiv(c.far as int * c.near as int, c.far - c.near);
    Mat4 {
        m00: f as i64,
        m01: 0,
        m02: 0,
        m03: 0,
        m10: 0,
        m11: f as i64,
        m12: 0,
        m13: 0,
        m20: 0,
        m21: 0,
        m22: za as i64,
        m23: zb as i64,
        m30: 0,
        m31: 0,
        m32: (-(SCALE as int)) as i64,
        m33: 0,
    }
}

/// The per-frame uniform record: the composed matrix
/// `projection * view * model` in the transform slot, and the view and
/// model matrices on their own.
pub open spec fn uniform_s(c: Camera) -> CameraUniform {
    let proj = projection_matrix_s(c);
    let view = view_matrix_s(c);
    let model = model_matrix_s(c);
    CameraUniform { proj: mat_mul_s(mat_mul_s(proj, view), model), view, model }
}

impl Camera {
    /// The model matrix for the current pose and viewport.
    pub fn model_matrix(&self) -> (r: Mat4)
        requires
            self.wf(),
            self.screen_width >= 1,
            self.screen_height >= 1,
        ensures
            r == model_matrix_s(*self),
            bounded_s(r),
    {
        let w = fx_div_by(2 * SCALE, self.screen_width as i64);
        let h = fx_div_by(2 * SCALE, self.screen_height as i64);
        proof {
            lemma_product_div_fits(
                -(self.position.x as int),
                w as int,
                SCALE as int,
                POS_LIMIT_FX as int,
                2 * SCALE,
            );
            lemma_product_div_fits(
                -(self.position.y as int),
                h as int,
                SCALE as int,
                POS_LIMIT_FX as int,
                2 * SCALE,
            );
            lemma_product_div_fits(
                -(self.position.z as int),
                DEPTH_FX as int,
                SCALE as int,
                POS_LIMIT_FX as int,
                DEPTH_FX as int,
            );
        }
        let tx = fx_mul(-self.position.x, w);
        let ty = fx_mul(-self.position.y, h);
        let tz = fx_mul(-self.position.z, DEPTH_FX);
        Mat4 {
            m00: w,
            m01: 0,
            m02: 0,
            m03: tx,
            m10: 0,
            m11: h,
            m12: 0,
            m13: ty,
            m20: 0,
            m21: 0,
            m22: DEPTH_FX,
            m23: tz,
            m30: 0,
            m31: 0,
            m32: 0,
            m33: SCALE,
        }
    }

    /// The view matrix for the current look direction.
    pub fn view_matrix(&self) -> (r: Mat4)
        requires
            self.wf(),
        ensures
            r == view_matrix_s(*self),
            bounded_s(r),
    {
        let xa = self.up.cross(&self.target).unit_or(Vec3 { x: SCALE, y: 0, z: 0 });
        let yr = self.target.cross(&xa);
        let ya = Vec3 {
            x: fx_div_by(yr.x, SCALE),
            y: fx_div_by(yr.y, SCALE),
            z: fx_div_by(yr.z, SCALE),
        };
        Mat4 {
            m00: xa.x,
            m01: xa.y,
            m02: xa.z,
            m03: 0,
            m10: ya.x,
            m11: ya.y,
            m12: ya.z,
            m13: 0,
            m20: -self.target.x,
            m21: -self.target.y,
            m22: -self.target.z,
            m23: 0,
            m30: 0,
            m31: 0,
            m32: 0,
            m33: SCALE,
        }
    }

    /// The projection matrix for the camera's projection constants.
    pub fn projection_matrix(&self) -> (r: Mat4)
        requires
            self.wf(),
        ensures
            r == projection_matrix_s(*self),
            bounded_s(r),
    {
        let half = fx_div_by(self.fov, 2);
        let (sh, ch) = sin_cos_fx(half);
        let f: i64 = if sh <= 0 {
            SCALE
        } else {
            proof {
                lemma_product_div_fits(
                    ch as int,
                    SCALE as int,
                    sh as int,
                    SCALE as int,
                    SCALE as int,
                );
                lemma_div_nonincreasing((SCALE as int) * (SCALE as int), sh as int);
            }
            fx_mul_div(ch, SCALE, sh)
        };
        let dz = self.far - self.near;
        proof {
            lemma_product_div_fits(
                (self.far + self.near) as int,
                -SCALE as int,
                dz as int,
                2 * FAR_LIMIT_FX,
                SCALE as int,
            );
            lemma_div_nonincreasing(2 * (FAR_LIMIT_FX as int) * SCALE, dz as int);
            lemma_product_div_fits(
                self.far as int,
                self.near as int,
                dz as int,
                FAR_LIMIT_FX as int,
                FAR_LIMIT_FX as int,
            );
            lemma_div_is_ordered_by_denominator(
                (FAR_LIMIT_FX as int) * FAR_LIMIT_FX,
                SCALE as int,
                dz as int,
            );
            assert((FAR_LIMIT_FX as int) * FAR_LIMIT_FX == 4294967296000000000000int)
                by (nonlinear_arith);
            assert(4294967296000000000000int / (SCALE as int) == 65536000000000000int);
        }
        let za = fx_mul_div(self.far + self.near, -SCALE, dz);
        let g = fx_mul_div(self.far, self.near, dz);
        proof {
            assert(-0x200_0000_0000_0000 <= g as int <= 0x200_0000_0000_0000);
        }
        let zb = -(g + g);
        Mat4 {
            m00: f,
            m01: 0,
            m02: 0,
            m03: 0,
            m10: 0,
            m11: f,
            m12: 0,
            m13: 0,
            m20: 0,
            m21: 0,
            m22: za,
            m23: zb,
            m30: 0,
            m31: 0,
            m32: -SCALE,
            m33: 0,
        }
    }

    /// The uniform record for the current state. It reads the camera and
    /// nothing else, so without an intervening mutation two calls return
    /// bit-identical records.
    pub fn uniform_obj(&self) -> (u: CameraUniform)
        requires
            self.wf(),
            self.screen_width >= 1,
            self.screen_height >= 1,
        ensures
            u == uniform_s(*self),
    {
        let proj = self.projection_matrix();
        let view = self.view_matrix();
        let model = self.model_matrix();
        let pv = proj.mul(&view);
        let pvm = pv.mul(&model);
        CameraUniform { proj: pvm, view, model }
    }

    /// One redraw tick: skipped wholesale at a degenerate (zero-sized)
    /// viewport, otherwise one movement update followed by a fresh
    /// uniform record.
    pub fn frame(&mut self, dt: i64) -> (u: Option<CameraUniform>)
        requires
            old(self).wf(),
        ensures
            final(self).wf(),
            old(self).screen_width == 0 || old(self).screen_height == 0 ==> *final(self)
                == *old(self) && u is None,
            old(self).screen_width >= 1 && old(self).screen_height >= 1 ==> *final(self)
                == update_spec(*old(self)) && u == Some(uniform_s(update_spec(*old(self)))),
    {
        if self.screen_width == 0 || self.screen_height == 0 {
            return None;
        }
        self.update(dt);
        Some(self.uniform_obj())
    }
}

/// A camera with one movement flag set to a key's new level.
pub open spec fn with_flag_s(c: Camera, dir: CameraMove, pressed: bool) -> Camera {
    match dir {
        CameraMove::Forward => Camera { is_forward: pressed, ..c },
        CameraMove::Backward => Camera { is_backward: pressed, ..c },
        CameraMove::Left => Camera { is_left: pressed, ..c },
        CameraMove::Right => Camera { is_right: pressed, ..c },
        CameraMove::Up => Camera { is_up: pressed, ..c },
        CameraMove::Down => Camera { is_down: pressed, ..c },
        CameraMove::Hold => c,
    }
}

/// What one input event does to the camera state. Movement keys are
/// level-triggered flags; the left mouse button activates; escape and a
/// focus loss deactivate; raw mouse motion rotates the look angles.
pub open spec fn handle_input_spec(c: Camera, ev: InputEvent, dt: int) -> Camera {
    match ev {
        InputEvent::Move(dir, pressed) => with_flag_s(c, dir, pressed),
        InputEvent::Activate => Camera { active_status: true, ..c },
        InputEvent::Deactivate => Camera { active_status: false, ..c },
        InputEvent::FocusLost => Camera { active_status: false, ..c },
        InputEvent::MouseLook(dx, dy) => look_rotate_spec(c, dx as int, dy as int, dt),
    }
}

/// The cursor side effect an event asks of the window shell: grab and
/// hide exactly on the transition into the active state, release and
/// show exactly on the transition out of it, whether the escape key or a
/// focus loss caused it.
pub open spec fn cursor_request_spec(c: Camera, ev: InputEvent) -> CursorRequest {
    match ev {
        InputEvent::Activate => if c.active_status {
            CursorRequest::Keep
        } else {
            CursorRequest::GrabAndHide
        },
        InputEvent::Deactivate | InputEvent::FocusLost => if c.active_status {
            CursorRequest::ReleaseAndShow
        } else {
            CursorRequest::Keep
        },
        _ => CursorRequest::Keep,
    }
}

/// Whether a look event's deltas are within the per-event bound.
pub open spec fn look_event_ok(ev: InputEvent) -> bool {
    match ev {
        InputEvent::MouseLook(dx, dy) => iabs(dx as int) <= LOOK_DELTA_LIMIT && iabs(
            dy as int,
        ) <= LOOK_DELTA_LIMIT,
        _ => true,
    }
}

impl Camera {
    /// Applies one input event and says what to do with the OS cursor.
    /// A second activation while already active changes nothing and asks
    /// for nothing: the transition into the active state happens exactly
    /// once. No input event moves the camera's position.
    pub fn handle_input(&mut self, ev: InputEvent, dt: i64) -> (r: CursorRequest)
        requires
            old(self).wf(),
            old(self).active_status ==> 0 <= dt <= DT_LIMIT_FX,
            old(self).active_status ==> look_event_ok(ev),
        ensures
            final(self).wf(),
            *final(self) == handle_input_spec(*old(self), ev, dt as int),
            r == cursor_request_spec(*old(self), ev),
            final(self).position == old(self).position,
            ev == InputEvent::Activate ==> final(self).active_status,
            ev == InputEvent::Activate && old(self).active_status ==> *final(self) == *old(
                self,
            ) && r == CursorRequest::Keep,
    {
        match ev {
            InputEvent::Move(dir, pressed) => {
                match dir {
                    CameraMove::Forward => {
                        self.is_forward = pressed;
                    },
                    CameraMove::Backward => {
                        self.is_backward = pressed;
                    },
                    CameraMove::Left => {
                        self.is_left = pressed;
                    },
                    CameraMove::Right => {
                        self.is_right = pressed;
                    },
                    CameraMove::Up => {
                        self.is_up = pressed;
                    },
                    CameraMove::Down => {
                        self.is_down = pressed;
                    },
                    CameraMove::Hold => {},
                }
                CursorRequest::Keep
            },
            InputEvent::Activate => {
                let was_active = self.active_status;
                self.active_move(true);
                if was_active {
                    CursorRequest::Keep
                } else {
                    CursorRequest::GrabAndHide
                }
            },
            InputEvent::Deactivate | InputEvent::FocusLost => {
                let was_active = self.active_status;
                self.active_move(false);
                if was_active {
                    CursorRequest::ReleaseAndShow
                } else {
                    CursorRequest::Keep
                }
            },
            InputEvent::MouseLook(dx, dy) => {
                self.look_rotate((dx, dy), dt);
                CursorRequest::Keep
            },
        }
    }
}

impl CameraUniform {
    /// The 48 fixed-point words of the uniform block in its memory
    /// order: the composed matrix, then the view matrix, then the model
    /// matrix, each column-major.
    pub fn to_words(&self) -> (v: Vec<i64>)
        ensures
            v@ == cols_s(self.proj) + cols_s(self.view) + cols_s(self.model),
            v@.len() == 48,
    {
        let mut v = self.proj.to_cols();
        let mut vw = self.view.to_cols();
        let mut md = self.model.to_cols();
        v.append(&mut vw);
        v.append(&mut md);
        proof {
            assert(v@ =~= cols_s(self.proj) + cols_s(self.view) + cols_s(self.model));
        }
        v
    }
}

/// However far a look event overshoots, the stored pitch never leaves
/// the clamped range around level: the gimbal poles stay out of reach.
pub proof fn lemma_pitch_always_clamped(c: Camera, dx: int, dy: int, dt: int)
    requires
        -PITCH_LIMIT_FX <= c.pitch <= PITCH_LIMIT_FX,
    ensures
        -PITCH_LIMIT_FX <= look_rotate_spec(c, dx, dy, dt).pitch <= PITCH_LIMIT_FX,
{
}

/// The stored look direction is always a unit vector up to fixed-point
/// rounding, and a movement tick keeps it one.
pub proof fn lemma_look_direction_unit(c: Camera)
    requires
        c.wf(),
    ensures
        unit_band(c.target),
        unit_band(update_spec(c).target),
{
    if c.active_status {
        let dir = dir_from_angles_s(c.yaw as int, c.pitch as int);
        if norm_sq_s(dir) < (SCALE as int) * (SCALE as int) {
            assert(unit_band(unit_z_s()));
        } else {
            lemma_normalize_unit_band(dir);
        }
    }
}

/// The derived right direction is orthogonal to both the up vector and
/// the look direction whenever the two are not degenerate (their cross
/// product is at least a unit long): the raw dot products stay below the
/// sum of the other vector's component magnitudes, next to nothing
/// against the `SCALE * SCALE` of an aligned pair.
pub proof fn lemma_right_orthogonal(up: Vec3, target: Vec3)
    requires
        iabs(up.x as int) <= SCALE,
        iabs(up.y as int) <= SCALE,
        iabs(up.z as int) <= SCALE,
        iabs(target.x as int) <= SCALE,
        iabs(target.y as int) <= SCALE,
        iabs(target.z as int) <= SCALE,
        norm_sq_s(cross_vs(up, target)) >= (SCALE as int) * (SCALE as int),
    ensures
        iabs(dot_s(right_of_s(up, target), up)) <= iabs(up.x as int) + iabs(up.y as int)
            + iabs(up.z as int),
        iabs(dot_s(right_of_s(up, target), target)) <= iabs(target.x as int) + iabs(
            target.y as int,
        ) + iabs(target.z as int),
{
    lemma_cross_orthogonal(up, target);
    lemma_normalize_orthogonal(cross_vs(up, target), up);
    lemma_normalize_orthogonal(cross_vs(up, target), target);
}

/// Deriving the uniform record reads the camera state and nothing else:
/// two derivations from equal states are bit-identical, so two calls
/// without an intervening mutation return the same record.
pub proof fn lemma_uniform_deterministic(a: Camera, b: Camera)
    requires
        a == b,
    ensures
        uniform_s(a) == uniform_s(b),
{
}

/// While the camera is inactive, movement ticks and look events leave
/// every part of its state exactly as it was, however many arrive.
pub proof fn lemma_inactive_frozen(c: Camera, dx: int, dy: int, dt: int)
    requires
        !c.active_status,
    ensures
        update_spec(c) == c,
        look_rotate_spec(c, dx, dy, dt) == c,
{
}

/// The sign convention of the spherical conversion: zero yaw and zero
/// pitch look along `+z` exactly.
pub proof fn lemma_zero_angles_look_along_z()
    ensures
        target_from_angles_s(0, 0) == unit_z_s(),
{
    assert(sin_s(0) == 0);
    assert(cos_s(0) == SCALE);
    let s2 = (SCALE as int) * (SCALE as int);
    assert(s2 == 0x1_0000_0000) by (nonlinear_arith)
        requires
            s2 == (SCALE as int) * (SCALE as int),
            SCALE as int == 65536,
    ;
    let dir = dir_from_angles_s(0, 0);
    assert(dir.x == 0 && dir.y == 0 && dir.z as int == s2);
    assert(norm_sq_s(dir) == s2 * s2) by (nonlinear_arith)
        requires
            dir.x == 0,
            dir.y == 0,
            dir.z as int == s2,
            norm_sq_s(dir) == dir.x as int * dir.x as int + dir.y as int * dir.y as int
                + dir.z as int * dir.z as int,
    ;
    assert(s2 * s2 >= s2) by (nonlinear_arith)
        requires
            s2 >= 1,
    ;
    crate::vec3::lemma_sqrt_floor_exists(norm_sq_s(dir));
    let m = crate::fixed::sqrt_floor(norm_sq_s(dir));
    assert(crate::fixed::is_sqrt_floor(s2 * s2, s2)) by (nonlinear_arith)
        requires
            s2 >= 0,
    ;
    assert(crate::fixed::is_sqrt_floor(norm_sq_s(dir), s2));
    crate::fixed::lemma_sqrt_floor_unique(norm_sq_s(dir), m, s2);
    lemma_div_multiples_vanish(SCALE as int, s2);
    assert(tdiv(dir.z as int * SCALE, m) == SCALE);
    assert(target_from_angles_s(0, 0) == crate::vec3::normalize_s(dir));
    assert(crate::vec3::normalize_s(dir) == unit_z_s());
}

/// One movement component: a unit-direction component times a bounded
/// movement amount, scaled back.
fn step(dir_c: i64, amt: i64) -> (r: i64)
    requires
        iabs(dir_c as int) <= SCALE,
        iabs(amt as int) <= SPEED_LIMIT_FX,
    ensures
        r as int == step_s(dir_c as int, amt as int),
        iabs(r as int) <= SPEED_LIMIT_FX,
{
    proof {
        lemma_product_div_fits(
            dir_c as int,
            amt as int,
            SCALE as int,
            SCALE as int,
            SPEED_LIMIT_FX as int,
        );
        lemma_div_multiples_vanish(SPEED_LIMIT_FX as int, SCALE as int);
    }
    fx_mul(dir_c, amt)
}

} // verus!
