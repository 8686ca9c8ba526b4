//! A read-only viewer library for archived chat-message stores.
//!
//! The store records each message's date as nanoseconds since
//! 2001-01-01T00:00:00 UTC. This crate normalizes those raw stamps,
//! maps raw store rows into conversation and message entities, tracks
//! the lifecycle of asynchronous loads in tri-state slots, and computes
//! the view model that a rendering front end draws on every refresh.

pub mod model;
pub mod render;
pub mod slot;
pub mod state;
pub mod timestamp;
