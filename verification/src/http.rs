//! The transport capability: the interface any HTTP backend must satisfy so
//! that the client can delegate the network fetch to it. A backend performs
//! one GET of a URL with ordered query parameters, attaching a configured
//! identification string, and treats any non-success status as a failure.

use vstd::prelude::*;

verus! {

/// An opaque transport-level failure. The client does not preserve its
/// detail past the capability boundary: every failure maps to
/// `Error::HTTPError`.
#[derive(Debug, Clone, PartialEq, Eq)]
pub struct TransportFailure {
    /// Backend-supplied diagnostic, for the backend's own callers.
    pub message: String,
}

/// The contract any HTTP backend must implement. Implementations live
/// outside this library (a network stack, or a stub for testing); nothing is
/// assumed of what `get` returns, so every caller of `get` states what holds
/// of each possible outcome.
pub trait HttpClient {
    /// Sets the identification string attached to every subsequent call
    /// (for instance as an outgoing user-agent header).
    fn user_agent(&mut self, user_agent: String);

    /// Fetches `url` with `args` encoded as URL query parameters, order
    /// preserved. Returns the full response body as text, or a failure for
    /// any network error or non-success status.
    fn get(&self, url: &str, args: &Vec<(String, String)>) -> Result<String, TransportFailure>;
}

} // verus!
