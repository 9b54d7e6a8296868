//! An in-process MCP (Model Context Protocol) server.
//!
//! It exposes a terminal application's live sessions to external MCP clients, so that an
//! external AI can operate the same terminals the user is looking at. This crate holds what
//! the server decides: who is let in, what is sent to which session, what the user is asked,
//! what goes into the audit log and what the client is answered. Sockets, sessions and the
//! frontend are driven from outside, step by step.

pub mod approval;
pub mod audit;
pub mod auth;
pub mod call_laws;
pub mod config;
pub mod error;
pub mod execute;
pub mod ids;
pub mod laws;
pub mod server;
pub mod session;
pub mod step_laws;
pub mod text;
pub mod tools;
pub mod view_laws;

pub use server::{auto_start, McpServerManager, McpServerStatus};
pub use tools::McpTools;
