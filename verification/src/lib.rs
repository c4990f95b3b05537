//! Control and telemetry glue for a real-time video sender.
//!
//! The congestion-control element of the media pipeline computes a target
//! bitrate and a statistics string on its own; this crate holds the logic
//! that reacts to them: a debounced rate-change logger, the decision rules
//! that enable or disable the periodic stats sampler and the bitrate
//! bridge, and the exact shape of every line the sampler writes.  All
//! pipeline, file and timer plumbing lives outside the library and hands
//! plain values in.

pub mod bridge;
pub mod debounce;
pub mod decimal;
pub mod sampler;
