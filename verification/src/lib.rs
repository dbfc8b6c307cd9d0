//! A verified core for a real-time message relay.
//!
//! Clients connect over a bidirectional text-frame socket, declare themselves
//! either a publisher (bound to a name) or a subscriber (bound to a publisher
//! name and topic filter), and the relay forwards each published message to
//! every currently-connected subscriber whose filter matches.
//!
//! This crate holds the relay's logic: the message data model, the bounded
//! broadcast hub with its lag semantics, the per-connection protocol state
//! machine, the wire grammars for commands and payloads, and the decisions of
//! the subscriber coordinator and the authentication front ends. The
//! surrounding process (socket handling, HTTP, environment) drives these
//! functions with plain values.

pub mod auth;
pub mod commands;
pub mod config;
pub mod coordinator;
pub mod hub;
pub mod json;
pub mod messages;
pub mod state;
pub mod text;

pub use messages::PublisherMsg;
pub use messages::PubSubMsg;
pub use messages::SubscriberMsg;
