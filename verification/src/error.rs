//! The library's error types and their client-facing status mapping.

use vstd::prelude::*;

verus! {

/// Rejection by the path sanitizer. Deliberately carries no detail: the
/// handler maps it to the same status as a missing file, so a client
/// cannot tell a traversal attempt apart from a miss.
#[derive(Clone, Copy, PartialEq, Eq, Structural, Debug)]
pub enum PathError {
    Invalid,
}

/// Failure to serve an otherwise valid path.
#[derive(Clone, Copy, PartialEq, Eq, Structural, Debug)]
pub enum ServeError {
    /// The file is absent or not a regular file; client-facing 404.
    NotFound,
    /// Any other I/O failure opening the file; client-facing 500, with the
    /// cause logged server-side only.
    Denied,
}

/// A request-level error carried to the HTTP layer as an opaque message.
pub enum WebError {
    AnyhowWrapper(String),
}

impl WebError {
    /// Every `WebError` is reported as an internal server error.
    pub fn status_code(&self) -> (c: u16)
        ensures
            c == 500,
    {
        500
    }

    /// The wrapped message, for the response body.
    pub fn message(&self) -> (m: &str)
        ensures
            self matches WebError::AnyhowWrapper(s) && m@ == s@,
    {
        match self {
            WebError::AnyhowWrapper(s) => s.as_str(),
        }
    }
}

} // verus!
