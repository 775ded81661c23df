//! Remote-control agent core for a radio repeater.
//!
//! The library holds the verified heart of the agent: the configuration
//! value, the command decoder and router that turn one inbound message
//! payload into at most one response publish, and the session state
//! machine that keeps exactly one broker connection alive and delivers
//! inbound messages in arrival order.

pub mod command;
pub mod config;
pub mod laws;
pub mod router;
pub mod session;

pub use config::Config;
