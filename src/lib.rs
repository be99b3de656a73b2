//! Codec and session logic for Acaia Bluetooth scales.
//!
//! The library builds outbound command frames, decodes inbound notification
//! frames into typed messages, and keeps the per-session cache of the latest
//! weight and timer readings. Transport (scanning, connecting, writing) is
//! left to the caller.
pub mod protocol;
pub mod encoding;
pub mod decoding;
pub mod session;
