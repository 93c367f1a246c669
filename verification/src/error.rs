use vstd::prelude::*;

verus! {

/// What went wrong during one transfer attempt.
///
/// Transport-level trouble (connecting, sending, timing out, decoding the
/// body) and unsuccessful response statuses are transient; trouble with the
/// local filesystem, and shutdown, are fatal.
#[derive(Clone, Copy, PartialEq, Eq, Structural, Debug)]
pub enum FailureKind {
    /// The connection could not be established.
    Connect,
    /// A request or a chunk read ran past its timeout.
    Timeout,
    /// The request could not be sent.
    RequestSend,
    /// The response body could not be decoded.
    BodyDecode,
    /// The server answered with a status outside the success range.
    HttpStatus(u16),
    /// The temporary file could not be opened.
    FsOpen,
    /// The temporary file could not be written or flushed.
    FsWrite,
    /// The finished file could not be renamed into place.
    FsRename,
    /// The process is shutting down.
    Cancelled,
}

/// A failure is fatal when retrying the network request cannot heal it:
/// local filesystem trouble, or shutdown. Everything transport-level,
/// including an unsuccessful response status, is transient.
pub open spec fn spec_is_fatal(k: FailureKind) -> bool {
    match k {
        FailureKind::FsOpen => true,
        FailureKind::FsWrite => true,
        FailureKind::FsRename => true,
        FailureKind::Cancelled => true,
        _ => false,
    }
}

/// Classifies a failure: fatal failures abort the task at once, transient
/// ones re-enter the backoff schedule.
pub fn is_fatal(k: FailureKind) -> (r: bool)
    ensures
        r == spec_is_fatal(k),
{
    match k {
        FailureKind::FsOpen => true,
        FailureKind::FsWrite => true,
        FailureKind::FsRename => true,
        FailureKind::Cancelled => true,
        _ => false,
    }
}

/// A task's terminal error: either a fatal failure, or a transient failure
/// that persisted past the retry budget.
#[derive(Clone, Copy, PartialEq, Eq, Structural, Debug)]
pub enum DownloadError {
    /// A failure that retrying cannot heal.
    Fatal(FailureKind),
    /// The last transient failure seen when the retry budget ran out.
    Exhausted(FailureKind),
}

impl DownloadError {
    /// The failure that the error carries.
    pub fn kind(&self) -> (k: FailureKind)
        ensures
            self is Fatal ==> k == self->Fatal_0,
            self is Exhausted ==> k == self->Exhausted_0,
    {
        match self {
            DownloadError::Fatal(k) => *k,
            DownloadError::Exhausted(k) => *k,
        }
    }
}

} // verus!
