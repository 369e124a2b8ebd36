//! Agent-style chat gateway core: request/reply correlation between an
//! HTTP-serving context and an event-driven peer, a tool registry, a
//! tool-calling session loop with a free-text fallback grammar, and a
//! JSON-RPC-shaped protocol dispatcher.

pub mod chat;
pub mod client;
pub mod config;
pub mod correlate;
pub mod error;
pub mod gateway;
pub mod json;
pub mod mcp_server;
pub mod parser;
pub mod session;
pub mod tool;
pub mod turn;
pub mod utils;
