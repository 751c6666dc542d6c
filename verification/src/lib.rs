//! A click-track engine: a percussive sample is rendered again and again
//! into an audio stream, at a tempo that other threads change while it plays,
//! and every beat is reported back to them.
//!
//! All arithmetic is exact. Tempo and volume are fixed-point integers, the
//! playhead is a fixed-point position with 32 fractional bits, and a sample
//! is a fraction of its full scale.
pub mod units;
pub mod click;
pub mod config;
pub mod playhead;
pub mod waveform;
pub mod sampler;
pub mod tui;
