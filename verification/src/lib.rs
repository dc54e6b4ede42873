//! Zoom/animation controller for a 2D scene that shows a single
//! SDF-circle quad: a one-shot timer started by a key release, a
//! quarter-circle ease-out curve that maps elapsed time to a camera
//! scale, an overlay slider that can drive the scale directly, and the
//! per-frame write-back into the camera's transform.
//!
//! All quantities are fixed-point integers: scale factors and colors in
//! micro-units (`units::SCALE_ONE` is 1.0), time in microseconds.

pub mod easing;
pub mod input;
pub mod overlay;
pub mod scene;
pub mod timer;
pub mod units;
pub mod update;
