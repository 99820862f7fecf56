//! Client-side engine for a real-time multiplayer state-synchronization
//! protocol: a binary wire codec for outgoing command batches and incoming
//! world snapshots, a cache for the latest decoded snapshot, the decision
//! logic of the datagram receive loop, and the per-tick command batching
//! and send path.

pub mod cache;
pub mod codec;
pub mod receive;
pub mod tick;
pub mod types;
