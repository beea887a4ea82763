//! Control core of a battery-powered rotary-encoder node.
//!
//! The crate holds the decisions of the node and none of its waiting: pulse
//! timing and debouncing, averaging, the activity probe, the wireless
//! association cycle, the reporting cycle with its bounded upload retries, the
//! request line that carries a reading, and the choice of the wake level
//! before deep sleep. Each cycle is a step function from a state and an event
//! to the next state; the firmware performs the action that a state asks for
//! and reports back what happened.

pub mod average;
pub mod clock;
pub mod encoder;
pub mod link;
pub mod power;
pub mod probe;
pub mod probe_laws;
pub mod replay;
pub mod replay_laws;
pub mod report;
pub mod report_laws;
pub mod request;
