//! Request routing and responses of a small demonstration HTTP server.
//!
//! The library decides, for a request's method and target, which handler
//! answers and what it answers. Binding a listener, reading requests off the
//! wire and shutting down on an interrupt are left to the binary around it.

pub mod message;
pub mod handlers;
pub mod assets;
pub mod query;
pub mod router;
pub mod config;
pub mod percent;
