//! Translates relative mouse motion into an absolute steering-wheel axis.
//!
//! The library holds the translation pipeline's logic on plain values:
//! qualifying input devices by their capability sets, validating the
//! interactive device selection, the steering-position accumulator with its
//! clamping policy, and the fixed shape of the virtual wheel device. Device
//! I/O (opening event nodes, reading batches, emitting events) lives in the
//! surrounding application, which hands plain values in and out.

pub mod config;
pub mod devices;
pub mod errors;
pub mod events;
pub mod selection;
pub mod steering;
pub mod wheel;
