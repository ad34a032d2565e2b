//! Client-side engine for consuming ordered message streams through a broker's
//! consumer-group protocol.
//!
//! The engine keeps, per registered stream, a pair of cursors: the active read
//! cursor (backlog replay or live tail) and the scan position of the broker's
//! reclaim operation. The poll-cycle decisions — which cursors the next
//! group-read uses, how an empty or non-empty per-stream reply moves the
//! cursors, when a reclaim is issued and how its result is folded back — are
//! all verified here. The network calls themselves (connecting, the blocking
//! group-read, the reclaim command) are issued by the caller, who hands the
//! replies back to the engine as plain values.

pub mod broker;
pub mod builder;
pub mod config;
pub mod cursor;
pub mod engine;
pub mod error;
pub mod laws;
pub mod reply;
