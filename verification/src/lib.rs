//! Core of a round-display firmware: the shared-state store, the two sensor
//! acquisition tasks that feed it and the frame-gated render task that reads it.
//!
//! Hardware is driven elsewhere. Every function here takes the outcome of a
//! hardware operation as a plain value and answers with the next operation to
//! perform, so the decisions can be verified without a device.

pub mod fault;
pub mod gyroscope_task;
pub mod orchestrator;
pub mod screen_draw;
pub mod screen_task;
pub mod shared_state;
pub mod touch_task;
