//! Event-driven command dispatch: decoding inbound events into typed commands,
//! running them through a three-stage pipeline, and shutting every ingress
//! channel down exactly once.

pub mod commands;
pub mod context;
pub mod framework;
pub mod gateway;
pub mod interaction;
pub mod trusted;
pub mod util;
