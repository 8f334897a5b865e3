//! A resilient streaming chat client for web search and page fetch: request
//! building, retry decisions with exponential backoff, incremental parsing of
//! server-sent events, and connectivity diagnostics.
pub mod error;
pub mod text;
pub mod retry;
pub mod json;
pub mod sse;
pub mod request;
pub mod probe;
pub mod tools;
pub mod config;
pub mod client;
