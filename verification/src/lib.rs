//! Deterministic core of a vertical platformer: the player controller, the
//! bounds confiner, the platform patrol oscillator and the camera follow rule.
//!
//! Distances are whole numbers of a unit that the caller picks (a pixel, or a
//! fraction of one); times are whole nanoseconds; rates are distance units per
//! second. Every function is a verified function of plain values that asks of
//! its caller only that the results fit the machine's integers, so a host loop
//! can feed it input and clock readings and hand the results to its physics
//! and rendering layers.

pub mod bounds;
pub mod camera;
pub mod geometry;
pub mod level;
pub mod platform;
pub mod player;
pub mod timer;
pub mod tuning;
