//! Core logic of a top-down arcade racing game: a fixed-point vehicle
//! motion model, a per-race session controller with a gated race clock,
//! the car tuning catalog, menu hit-testing, and the scene-stack rules.
//!
//! Everything is integer fixed-point: a physical quantity `v` is stored
//! as the `i64` value `v * SCALE`, so the whole simulation is exact and
//! machine-checkable.

pub mod fixed;
pub mod game_data;
pub mod menus;
pub mod motion;
pub mod scenes;
pub mod session;
pub mod trig;
pub mod tuning;
pub mod utils;
