//! Native audio engine core: real-time passthrough and capture, with
//! sample-format normalization, signal level metering, and a bounded
//! transfer buffer between producer and consumer callbacks.
//!
//! All signal processing operates on the canonical sample representation:
//! a signed 16-bit value, interpreted as a normalized amplitude in
//! [-1.0, 1.0] with 15 fractional bits.

pub mod buffer;
pub mod capture;
pub mod convert;
pub mod decoder;
pub mod devices;
pub mod formats;
pub mod meter;
pub mod mixer;
pub mod noise;
pub mod player;
pub mod queue;
pub mod ring;
pub mod sample;
pub mod session;
pub mod sources;
pub mod stream;
pub mod text;
pub mod types;
pub mod white;

use vstd::prelude::*;

verus! {

/// One sample, normalized to [-1.0, 1.0] in 15-bit fixed point: the value
/// `s` stands for the amplitude `s / 32768.0`.
pub type Sample = i16;

} // verus!
