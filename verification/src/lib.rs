//! Decoding of human input events from raw digital pin samples.
//!
//! A debounced push button, a quadrature rotary decoder with a configurable
//! step divider, time-aware layers that attach durations and a turn-rate
//! acceleration multiplier, and a fusion state machine that merges button and
//! rotation sub-states into one event stream.
//!
//! The state machines here work on plain per-tick samples: the caller reads
//! its pins and its clock once per tick and hands the boolean levels and the
//! current instant in. Pin and clock ownership stays outside.

pub mod button;
pub mod encoder;
pub mod rotary;
pub mod time;
