//! Verified core of the JackDAW suite facade: configuration resolution,
//! the OSC messages that the facade sends and receives, the launch plans of
//! the services, and the text that the client commands report.

pub mod config;
pub mod text;
pub mod osc;
pub mod launch;
pub mod client;
