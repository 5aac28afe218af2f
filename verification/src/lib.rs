//! Capture pipeline for a single-channel sampling device: a bounded
//! single-producer/single-consumer ring buffer that hands samples from a
//! free-running sampling loop to a network-facing consumer, an online
//! line-decimation filter that drops samples which do not materially change
//! the visible waveform, and an encoder that wraps a payload in a binary
//! wire frame.

pub mod buffer;
pub mod decimation;
pub mod frame;
pub mod measure;
pub mod point;
