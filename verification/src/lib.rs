//! Verified core of a persona message-relay pipeline.
//!
//! Given an inbound message, the library decides whether and as which persona
//! ("mate") it should be re-emitted, transforms its content, routes it through
//! a per-channel alternate identity, and keeps the ownership ledger that later
//! retraction and attribution lookups rely on. All decision logic is verified;
//! platform I/O (the chat client, the database, object storage) lives outside
//! the library and hands in plain values.

pub mod channels;
pub mod ledger;
pub mod mates;
pub mod messages;
pub mod misc;
pub mod models;
pub mod pluralkit;
pub mod relay;
pub mod settings;
pub mod text;
pub mod tupperbox;
