//! Core of an interactive free-look viewer: frame pacing, input aggregation
//! and the camera model, all over integer fixed-point quantities.

pub mod camera;
pub mod camera_events;
pub mod fixed;
pub mod refresh_rate;
pub mod vector;
