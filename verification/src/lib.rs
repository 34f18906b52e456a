//! Session engine for a battery-powered colorimeter driven over a short-range
//! wireless link.
//!
//! The crate holds the device-independent core: the binary frame codec, the
//! single-in-flight outbound command queue, the per-session notification
//! handling (with duplicate suppression), the reconnection supervisor, and a
//! bounded publish/subscribe event bus.  Transport, terminal and network
//! plumbing live outside the library and talk to it through plain values.

pub mod bus;
pub mod codec;
pub mod commands;
pub mod data;
pub mod outbound;
pub mod output;
pub mod session;
pub mod supervisor;
