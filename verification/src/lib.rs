//! Core logic of a UDP load-generation and measurement tool.
//!
//! The library holds the verified parts: splitting an aggregate packet rate
//! across concurrent workers, open-loop pacing arithmetic, the lock-free
//! counter pair that the reception hot path updates, and the pure stats
//! aggregator that derives throughput from a counter snapshot. Sockets,
//! tasks and timers live outside the library and hand it plain values.

pub mod config;
pub mod receiver;
pub mod sender;
pub mod stats;
