//! Verified core of a TCP request/response load-measurement harness.
//!
//! The library models the wire protocol and the measurement logic as pure
//! state over plain values: a length-prefixed framing layer and packet codec
//! over in-memory byte buffers, load trackers driven by a microsecond clock,
//! closed-loop and open-loop generator state machines, and percentile
//! aggregation of latency samples. The unverifiable edges — sockets, threads,
//! timed waits — live outside the library and exchange plain bytes and
//! integers with it.

pub mod clock;
pub mod closed_loop_client;
pub mod frame;
pub mod metrics;
pub mod open_loop_client;
pub mod packet;
pub mod protocol;
pub mod tcp_server;
pub mod tracker;
pub mod wire;
