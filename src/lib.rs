//! Client library for a remote search and AI service.
//!
//! The verified core of the crate is the AI session: the conversation state,
//! the decoder that turns server-sent events into stream chunks and state
//! changes, and the rules that enrich, replay and clear requests. The HTTP
//! transport drives these functions from outside and hands them plain values.

pub mod auth;
pub mod client;
pub mod cloud;
pub mod collection;
pub mod error;
pub mod text;
pub mod types;
pub mod json;
pub mod manager;
pub mod utils;
pub mod stream_manager;
