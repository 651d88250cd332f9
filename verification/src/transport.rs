//! What the bridge and the proxy learn from a failed socket operation.
use vstd::prelude::*;

verus! {

/// The kind of a failed socket operation, as far as the workers decide on it.
///
/// `WouldBlock` and `TimedOut` stand for the `std::io::ErrorKind` variants of
/// the same names; every other kind is `Other`.
#[derive(Debug, Clone, Copy, PartialEq, Eq, Structural)]
pub enum IoErrorKind {
    WouldBlock,
    TimedOut,
    Other,
}

/// Whether an operation that failed this way is simply retried on the next
/// pass of a worker loop: a non-blocking socket had nothing ready, or a read
/// or write timed out.
pub fn is_retryable_io(kind: IoErrorKind) -> (retry: bool)
    ensures
        retry <==> (kind == IoErrorKind::WouldBlock || kind == IoErrorKind::TimedOut),
{
    match kind {
        IoErrorKind::WouldBlock | IoErrorKind::TimedOut => true,
        IoErrorKind::Other => false,
    }
}

} // verus!
