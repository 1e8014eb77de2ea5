//! Relays code-review events into one-on-one chat notifications.
//!
//! The crate holds the identity-resolution and notification-decision core:
//! mapping a review-system username to a chat profile identity (with an
//! in-memory cache and a persisted store), deciding through a per-user rule
//! engine whether a notification is wanted, and composing the notification
//! text.  Transport adapters (HTTP endpoints, CLI parsing, the chat backend
//! client) live outside this crate and talk to it in plain values.

pub mod api;
pub mod controller;
pub mod default;
pub mod just;
pub mod messages;
pub mod service;
pub mod text;
pub mod types;
