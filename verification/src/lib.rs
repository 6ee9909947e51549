//! Core of a sharded gateway front-end: a pool of long-lived gateway
//! sessions (shards) whose events are wrapped in a uniform JSON envelope
//! and published onto named broker streams.
//!
//! This crate holds the verified logic: shard-range arithmetic and pool
//! layout (`pool`), the shard state table with its health and counter
//! semantics (`state`), the per-shard runner state machine with its
//! circuit breaker (`runner`), envelope construction (`events`,
//! `serialize`, `envelope`), the character-exact JSON wire encoding
//! (`json`, `text`), subject routing (`routing`, `subjects`, `streams`),
//! the publisher bookkeeping (`publisher`), the health views (`health`),
//! and the error taxonomy (`error`). The unverified edges — the gateway
//! client, the broker connection, the HTTP health surface — live in the
//! process around the core and call into these functions.

pub mod clock;
pub mod config;
pub mod envelope;
pub mod error;
pub mod events;
pub mod health;
pub mod json;
pub mod pool;
pub mod publisher;
pub mod routing;
pub mod runner;
pub mod serialize;
pub mod state;
pub mod streams;
pub mod subjects;
pub mod text;
