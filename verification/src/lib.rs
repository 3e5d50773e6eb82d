//! Event-notification core of a messaging-protocol client.
//!
//! Protocol events decoded from the wire (connection closure, backpressure
//! signals, publisher confirms, returned messages) are surfaced to application
//! code through pluggable callback sinks. This crate defines the event
//! records, the two sink capability sets with their contracts, structured
//! default sinks, and a verified dispatch boundary that enforces the
//! per-context ordering rules: close is terminal, unblocked only follows an
//! unmatched blocked, and confirm delivery tags never decrease.

pub mod callbacks;
pub mod dispatch;
pub mod events;
pub mod history;
pub mod log;
