//! Relays feed-aggregator webhook notifications to a chat-bot endpoint.
//!
//! The library holds the verified core: the translation of one feed entry
//! into a rich chat message, and the decisions of the delivery coordinator
//! (the per-entry retry machine and the batch that runs under one lock).
pub mod cli;
pub mod coordinator;
pub mod delivery;
pub mod lock_trace;
pub mod models;
