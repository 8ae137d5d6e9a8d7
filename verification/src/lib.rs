//! A JSON-RPC 2.0 request dispatcher with multi-version routing.
//!
//! The crate parses HTTP POST payloads carrying a single request or a batch,
//! validates them against the JSON-RPC 2.0 rules, rewrites method names to
//! select an API version from the URL path, dispatches each request to a
//! registered handler and assembles the ordered responses.

pub mod bytes;
pub mod dec;
pub mod error;
pub mod json;
pub mod json_laws;
pub mod jsonrpc;
pub mod laws;
pub mod reply;
pub mod text;
pub mod tokens;
pub mod v03;
pub mod versioning;

