//! Incoming-message handling for a chat-protocol client.
//!
//! Decoded wire records of three different shapes are normalised into one
//! immutable [`types::Message`] snapshot, and forum-topic membership is
//! derived from the overloaded fields of the reply header. [`dispatch`] holds
//! the decisions of the cancellable update loop, [`filter`] those of a
//! handler that answers only in chosen topics, and [`text`] writes the
//! diagnostic dump. [`schema`] declares what is taken on trust from the
//! crates that this one is built on.

pub mod dispatch;
pub mod filter;
pub mod schema;
pub mod text;
pub mod types;
