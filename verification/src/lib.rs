//! Model Context Protocol gateway.
//!
//! The gateway takes messages from the lines of its standard input, posts each to
//! an MCP endpoint, and prints what the server answers. It also subscribes to what
//! the server sends of its own accord, and prints that. This crate holds its
//! decisions: which request carries a line, what is read of a response, what is
//! printed, and when the gateway ends. It waits for nothing itself.
pub mod bridge;
pub mod calls;
pub mod config;
pub mod http_types;
pub mod laws;
pub mod request;
pub mod response;
pub mod steps;
pub mod stream;
pub mod text;
