//! Per-tick simulation of a top-down endless-lane survival game.
//!
//! All quantities are fixed point: lengths are in milli-units (one world unit
//! is 1000), times are in milliseconds and health is in whole points.
//! Rendering, asset loading, input capture and the window live outside this
//! crate; it consumes plain values (a pointer ray, held keys, a tick delta)
//! and hands plain values back.

mod rng;

pub mod geometry;
pub mod timer;
pub mod components;
pub mod targeting;
pub mod movement;
pub mod combat;
pub mod lifecycle;
pub mod spawner;
pub mod recycler;
pub mod session;
pub mod step;
