//! Presence state engine and event distribution for a community space's
//! open/closed status service.
//!
//! The library holds the authoritative presence state machine, the planning
//! and commit protocol that keeps the durable record ahead of the in-memory
//! state, the challenge-response authentication guard, the lossy fan-out
//! event bus, and the message-selection rules of the downstream publishers.
//! All I/O (HTTP routing, file writes, chat and social-feed clients) lives
//! outside, in the surrounding application.

pub mod auth;
pub mod bus;
pub mod consumers;
pub mod engine;
pub mod presence;
pub mod publish;
pub mod service;
