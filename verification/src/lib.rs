//! Core logic of a chat backend: users and their social relationships,
//! channels, guilds, and the permission evaluator that gates every operation
//! on them.
//!
//! The evaluator and the relationship resolver are pure functions of
//! already-loaded contexts.  Loading those contexts from a store, serving
//! HTTP routes and delivering notifications are the callers' business: they
//! hand plain values in and take plain values back.

pub mod avatar;
pub mod bots;
pub mod channel;
pub mod guild;
pub mod messages;
pub mod permissions;
pub mod push;
pub mod text;
pub mod user;
