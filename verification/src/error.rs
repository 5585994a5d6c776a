//! Error taxonomy for upstream calls and for the relay boundary.

use vstd::prelude::*;

verus! {

/// What went wrong at the transport layer, with timeouts kept apart from
/// plain connection failures so callers can map them to distinct statuses.
#[derive(Debug, Clone, Copy, PartialEq, Eq, Structural)]
pub enum TransportKind {
    /// The request exceeded its configured timeout.
    Timeout,
    /// The connection could not be established (DNS, refused, reset).
    Connect,
    /// Any other transport failure (TLS, protocol, body transfer).
    Other,
}

/// Failure of one upstream operation.
#[derive(Debug, Clone, Copy, PartialEq, Eq, Structural)]
pub enum CoreError {
    /// The upstream host could not be reached or the request was cut short.
    Transport(TransportKind),
    /// The upstream host answered with a non-success HTTP status.
    HttpStatus(u16),
    /// The response body did not match the expected shape.
    Deserialization,
    /// A caller-supplied identifier was rejected before any request was made.
    InvalidIdentifier,
}

impl CoreError {
    /// True exactly for a timeout-classified transport failure.
    pub open spec fn is_timeout(self) -> bool {
        self == CoreError::Transport(TransportKind::Timeout)
    }
}

/// Classifies a failed transport attempt from the two flags an HTTP client
/// reports, giving timeouts priority so they stay distinguishable.
pub fn transport_error(timed_out: bool, connect_failed: bool) -> (e: CoreError)
    ensures
        timed_out ==> e == CoreError::Transport(TransportKind::Timeout),
        !timed_out && connect_failed ==> e == CoreError::Transport(TransportKind::Connect),
        !timed_out && !connect_failed ==> e == CoreError::Transport(TransportKind::Other),
        e.is_timeout() <==> timed_out,
{
    if timed_out {
        CoreError::Transport(TransportKind::Timeout)
    } else if connect_failed {
        CoreError::Transport(TransportKind::Connect)
    } else {
        CoreError::Transport(TransportKind::Other)
    }
}

/// Accepts exactly the success statuses; every other status is surfaced
/// as an `HttpStatus` failure carrying that status.
pub fn check_status(status: u16) -> (r: Result<(), CoreError>)
    ensures
        200 <= status < 300 ==> r == Ok::<(), CoreError>(()),
        !(200 <= status < 300) ==> r == Err::<(), CoreError>(CoreError::HttpStatus(status)),
{
    if 200 <= status && status < 300 {
        Ok(())
    } else {
        Err(CoreError::HttpStatus(status))
    }
}

} // verus!
