//! A two-player pong simulation, modelled in fixed-point arithmetic.
//!
//! Positions and velocities are integers in milli-pixel units: one pixel is
//! a thousand units. The whole per-frame simulation (paddle acceleration,
//! integration, collision detection and response, scoring and the terminal
//! transition) lives here with contracts; a host shell is expected to poll
//! input, convert it to an `InputSnapshot` and render the resulting state.

pub mod game;
pub mod laws;
pub mod model;
pub mod num;
pub mod text;
