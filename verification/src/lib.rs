//! Verified core of an interactive cuboid-scene viewer.
//!
//! The crate models the viewer's camera subsystem: a free-flying camera with
//! mouse-look and key-driven movement, the activation state machine that
//! gates that input, and the per-frame derivation of the model, view and
//! projection matrices that are handed to the rendering backend as one
//! uniform record.
//!
//! All scalars are fixed-point: an `i64` holding a real number scaled by
//! [`fixed::SCALE`] (16 fractional bits). The window shell and the GPU are
//! collaborators outside this crate; they exchange plain values with it.

pub mod camera;
pub mod element;
pub mod fixed;
pub mod layout;
pub mod mat4;
pub mod trig;
pub mod vec3;
