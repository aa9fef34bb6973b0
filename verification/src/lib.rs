//! Per-frame video-effect adapter: a lifecycle state machine that loads an
//! effect configuration once per plugin instance, and a frame pipeline that
//! converts packed interleaved pixels to a planar luma/chrominance buffer
//! for the effect stage and reconstructs the packed output frame from it,
//! with field selection and Bob-style deinterlacing.

pub mod config;
pub mod error;
pub mod field;
pub mod frame;
pub mod plugin;
