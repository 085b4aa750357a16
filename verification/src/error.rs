use vstd::prelude::*;

verus! {

/// The typed failure taxonomy of session operations.
///
/// Every driver or OS failure is surfaced to the caller as one of these;
/// variants that translate an OS failure carry the raw OS error code behind
/// the failure. `ShuttingDown` is a designed, expected termination
/// signal for blocked receivers, not a bug condition.
#[derive(Clone, Copy, PartialEq, Eq, Structural, Debug)]
pub enum Error {
    /// The driver could not allocate an outbound packet buffer, for example
    /// because its ring is full or the session is invalid.
    AllocationFailed(u32),
    /// The driver rejected a packet submission. Submission is fire-and-forget
    /// at the driver boundary, so nothing constructs this today; the variant
    /// keeps the taxonomy complete for callers that match exhaustively.
    SendFailed(u32),
    /// The driver failed while dequeuing an inbound packet (other than its
    /// designated empty-queue signal, which is not an error).
    ReceiveFailed(u32),
    /// The OS wait on the read-ready and shutdown signals itself failed.
    WaitFailed(u32),
    /// The session is shutting down; every blocked receiver is released
    /// with this value, and later blocking receives return it immediately.
    ShuttingDown,
    /// A pass-through for an untranslated OS failure.
    OsError(u32),
}

impl Error {
    /// The raw OS error code behind this error, where one exists.
    pub open spec fn spec_os_code(&self) -> Option<u32> {
        match *self {
            Error::AllocationFailed(c) => Some(c),
            Error::SendFailed(c) => Some(c),
            Error::ReceiveFailed(c) => Some(c),
            Error::WaitFailed(c) => Some(c),
            Error::ShuttingDown => None,
            Error::OsError(c) => Some(c),
        }
    }

    /// Returns the raw OS error code behind this error, where one exists.
    /// `ShuttingDown` is not an OS failure and carries none.
    pub fn os_code(&self) -> (r: Option<u32>)
        ensures
            r == self.spec_os_code(),
    {
        match *self {
            Error::AllocationFailed(c) => Some(c),
            Error::SendFailed(c) => Some(c),
            Error::ReceiveFailed(c) => Some(c),
            Error::WaitFailed(c) => Some(c),
            Error::ShuttingDown => None,
            Error::OsError(c) => Some(c),
        }
    }

    /// True exactly for the designed termination signal of blocked receivers.
    pub fn is_shutting_down(&self) -> (r: bool)
        ensures
            r == (*self == Error::ShuttingDown),
    {
        matches!(*self, Error::ShuttingDown)
    }
}

} // verus!
