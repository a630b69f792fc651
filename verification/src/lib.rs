//! Command handlers of a small desktop backend.
//!
//! Each handler either prepares an external process invocation for the host
//! to run, or turns what the host observed into the reply that goes back to
//! the caller. The host does the spawning; everything decided here is proved.

pub mod dispatcher;
pub mod echo;
pub mod invocation;
pub mod launcher;
pub mod quoting;
pub mod roundtrip;
pub mod splitting;
