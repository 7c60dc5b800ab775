//! Verified core of a pink-noise player: a deterministic noise engine, a
//! declick envelope, a stream adapter that interleaves and converts samples
//! for the output device, and the playback lifecycle state machine.
//!
//! All amplitudes are Q16 fixed point: the integer 65536 stands for 1.0,
//! so every bound and conversion is exact integer arithmetic.

pub mod adapter;
pub mod declick;
pub mod engine;
pub mod fixed;
pub mod lifecycle;
pub mod pink;
pub mod rng;
