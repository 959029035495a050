//! Verified core of a dual-stream audio recorder.
//!
//! Two independently clocked capture devices feed differently formatted
//! sample buffers into this library. The verified core normalizes those
//! buffers to a canonical mono representation, decides which of the two
//! streams must be resampled so that both sides share one rate, buffers
//! samples in fixed-capacity FIFO queues, and merges the two sides into
//! one interleaved stream, padding with equilibrium (silence) samples on
//! underrun. A small state machine owns the recording lifecycle.
//!
//! Device handling, threads and the real-time callbacks live outside the
//! library; they exchange plain values with the functions defined here.

pub mod device;
pub mod errors;
pub mod normalize;
pub mod queue;
pub mod rates;
pub mod resample;
pub mod sample;
pub mod session;
pub mod sync;
