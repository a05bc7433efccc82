//! A verified static-asset server core.
//!
//! The library covers the decision logic of a small HTTP file server:
//! routing a request path to an asset class, resolving the class's root
//! directory for the active runtime mode, sanitizing the user-supplied
//! filename against directory traversal, and choosing the response status.
//! All file and network I/O lives outside the library; callers hand in
//! plain strings and carry out the decisions returned.

pub mod config;
pub mod error;
pub mod handler;
pub mod paths;
pub mod resolve;
pub mod routes;
pub mod runtime;
pub mod strutil;
pub mod utils;
