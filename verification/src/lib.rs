//! Scene-state core for an interactive 3D viewer.
//!
//! The crate models the state of a free-flying camera over a procedurally
//! generated grid of object instances: it turns plain input events into a
//! deterministic per-frame camera pose and per-model instance transforms,
//! and keeps each model's raw buffer mirror equal to its instance list.
//!
//! All quantities are exact fixed-point integers in thousandths: lengths in
//! milliunits, angles in millidegrees. The windowing and GPU shell around
//! the library converts to and from its own floating-point types at the
//! boundary.

pub mod input;
pub mod math;
pub mod state;
