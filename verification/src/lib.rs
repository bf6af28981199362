//! Verified core of an interactive 3D viewer: a fixed-point camera model
//! (position, orientation, perspective projection) and the state machine of a
//! GPU render session (shader program lifecycle, drag input, draw planning).
//!
//! The GPU context is an outside service: its calls happen beyond this crate,
//! which decides state transitions, errors, draw parameters and handle
//! releases from the outcomes reported back to it.

pub mod fx;
pub mod mat;
pub mod camera;
pub mod shader;
pub mod mesh;
pub mod session;
