//! Errors produced by the library's own decisions.

use vstd::prelude::*;

verus! {

/// Errors produced by the request builders and the response and transport
/// checks. Transport failures of the HTTP and WebSocket stacks are reported by
/// the program that drives them.
#[derive(Debug, Clone, PartialEq, Eq)]
pub enum Error {
    /// The configured transport URL is not valid.
    InvalidUrl { transport: String },
    /// The configured transport URL does not use TLS.
    InsecureTransport { transport: String, required_scheme: String },
    /// Error response from the Bitvavo API.
    Api { code: i64, message: String },
    /// A private endpoint was called without API credentials.
    MissingCredentials,
    /// The WebSocket connection is no longer usable.
    ConnectionClosed,
}

/// Result type of the library.
pub type Result<T> = std::result::Result<T, Error>;

} // verus!
