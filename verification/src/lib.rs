//! Deterministic core of a prediction/rollback multiplayer arena game.
//!
//! Independent peers exchange small per-tick input commands and must converge
//! on bit-identical simulation state.  Everything that decides that state is
//! collected here and verified: the fixed-point arithmetic the stepper runs
//! on, the command encoding, the per-tick stepper itself, the per-actor state
//! fingerprint, and the session lifecycle that governs when a round's
//! resources exist.  Rendering, windowing and the network transport live
//! outside this crate and only ever hand plain values in and out.

pub mod fixed;
pub mod input;
pub mod checksum;
pub mod round;
pub mod session;
