//! Verified core of a request-buffering relay: a durable-queue model with
//! unique, strictly increasing entry ids, a single-attempt-per-tick dispatch
//! policy, and the forwarding success rule.

pub mod api;
pub mod dispatch;
pub mod entry;
pub mod forward;
pub mod ingest;
pub mod settings;
pub mod store;
pub mod text;

