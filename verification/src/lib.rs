//! A bridge between a controller and a long-running background computation.
//!
//! The controller starts a run, watches its progress as a stream of messages
//! and may cancel it at any time. This crate holds the rules of that exchange:
//! the message protocol, the cancellation signal, the log bridge and the
//! lifecycle of a run.

pub mod clock;
pub mod config;
pub mod harness;
pub mod logger;
pub mod message;
pub mod protocol;
pub mod status;
pub mod terminator;
pub mod text;
