//! Camera-rig behaviors for an interactive 3D application.
//!
//! Raw pointer/keyboard input is mapped to per-style control events; a
//! reducer folds each tick's events into an eye/target pose; an exponential
//! smoothing filter turns the raw pose sequence into a stable one.
//!
//! All scalar quantities (world coordinates, radians, blend weights) are
//! carried as fixed-point values: an `i64` counting 1/2^24 units, see
//! [`fixed::FP_ONE`].

pub mod controllers;
pub mod fixed;
pub mod geometry;
pub mod look;
pub mod smoother;
pub mod trig;
