//! Windowed rendering support library: a frame-rate estimator and the
//! deferred-initialization coordinator that mediates between a windowing
//! event source and an asynchronously constructed graphics context.

pub mod clock;
pub mod coordinator;
pub mod frame_clock;
pub mod geometry;
pub mod profiler;
