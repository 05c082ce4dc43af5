//! Planning and bookkeeping for a two-pass separable Gaussian blur that runs
//! on a GPU compute device.
//!
//! The crate holds everything about such a run that can be decided on the
//! host from plain numbers: how an image maps onto textures, how many thread
//! groups each pass dispatches, what goes into the command buffer and in
//! which order, and how raw timestamp counters become durations.  Talking to
//! the device itself is left to the caller.

pub mod commands;
pub mod dispatch;
pub mod error;
pub mod picture;
pub mod pipeline;
pub mod profiling;
pub mod resource;
pub mod run;
pub mod timing;
