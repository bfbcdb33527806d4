//! Verified core of a polled network client: endpoint translation, a
//! non-blocking socket adapter over a fixed pool of socket slots, the
//! secure-session life cycle and the staged bring-up that ties them together.
//!
//! The crate performs no I/O. Every operation takes what the transport, the
//! radio or the TLS engine reported as a plain value and decides what the
//! caller sees and what has to be done next.

pub mod error;
pub mod endpoint;
pub mod adapter;
pub mod session;
pub mod bringup;
