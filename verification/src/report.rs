//! Completed-request records and the transport error taxonomy.

use vstd::prelude::*;

verus! {

/// A result for one completed request.
///
/// `start` is stamped just before the request of the final attempt is
/// written, `end` just after the body stream terminates.  Both are
/// monotonic instants in nanoseconds.
#[derive(Clone, Copy, Debug, PartialEq, Eq, Structural)]
pub struct RequestResult {
    /// When the query started.
    pub start: u64,
    /// When the query ended.
    pub end: u64,
    /// HTTP status of the response.
    pub status: u16,
    /// Total length of the body, as the sum of its chunk lengths.
    pub len_bytes: usize,
}

impl RequestResult {
    /// A well-formed record spans a non-negative interval and carries a
    /// status code in the range the wire format admits.
    pub open spec fn valid(self) -> bool {
        &&& self.start <= self.end
        &&& valid_status(self.status)
    }

    /// Duration the request took.
    pub fn duration(&self) -> (d: u64)
        requires
            self.start <= self.end,
        ensures
            d == self.end - self.start,
    {
        self.end - self.start
    }
}

/// An HTTP status code as the wire format admits it: three digits, the
/// first nonzero.
pub open spec fn valid_status(s: u16) -> bool {
    100 <= s <= 999
}

/// Why a request produced no response.
#[derive(Clone, Copy, Debug, PartialEq, Eq, Structural)]
pub enum TransportError {
    /// Host absent, DNS failure, or empty address set.
    Resolve,
    /// TCP connect, TLS handshake or HTTP handshake failure.
    Connect,
    /// Request-write failure, response-read failure, or protocol error
    /// mid-stream.
    Send,
    /// The per-request timeout fired before the response completed.
    Timeout,
}

/// A target description the engine cannot work with, raised
/// synchronously when the target is first built.
#[derive(Clone, Copy, Debug, PartialEq, Eq, Structural)]
pub enum ConfigError {
    /// The URL scheme is neither `http` nor `https`.
    BadScheme,
    /// The URL carries no host.
    MissingHost,
}

} // verus!
