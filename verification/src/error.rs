//! Error kinds of a capture session and their status codes.

use vstd::prelude::*;

verus! {

/// Why an operation on a capture session was refused or failed.
#[derive(Clone, Copy, Debug, PartialEq, Eq, Structural)]
pub enum CaptureError {
    /// The process-scoped endpoint could not be activated.
    ActivationFailed,
    /// The requested PCM parameters were rejected.
    FormatNegotiationFailed,
    /// No dispatch queue lease could be obtained.
    QueueAcquisitionFailed,
    /// The endpoint reported an error while capturing.
    DeviceFault,
    /// The caller broke the session's calling discipline.
    ProtocolViolation,
}

impl CaptureError {
    /// The nonzero status code that stands for this error kind.
    pub open spec fn spec_code(self) -> i32 {
        match self {
            CaptureError::ActivationFailed => 1i32,
            CaptureError::FormatNegotiationFailed => 2i32,
            CaptureError::QueueAcquisitionFailed => 3i32,
            CaptureError::DeviceFault => 4i32,
            CaptureError::ProtocolViolation => 5i32,
        }
    }

    /// Returns the status code of this error kind.
    #[verifier::when_used_as_spec(spec_code)]
    pub fn code(self) -> (c: i32)
        ensures
            c == self.spec_code(),
    {
        match self {
            CaptureError::ActivationFailed => 1,
            CaptureError::FormatNegotiationFailed => 2,
            CaptureError::QueueAcquisitionFailed => 3,
            CaptureError::DeviceFault => 4,
            CaptureError::ProtocolViolation => 5,
        }
    }

    /// Returns the error kind that a status code stands for, if any.
    pub fn from_code(code: i32) -> (kind: Option<CaptureError>)
        ensures
            match kind {
                Some(e) => e.spec_code() == code,
                None => forall|e: CaptureError| e.spec_code() != code,
            },
    {
        if code == 1 {
            Some(CaptureError::ActivationFailed)
        } else if code == 2 {
            Some(CaptureError::FormatNegotiationFailed)
        } else if code == 3 {
            Some(CaptureError::QueueAcquisitionFailed)
        } else if code == 4 {
            Some(CaptureError::DeviceFault)
        } else if code == 5 {
            Some(CaptureError::ProtocolViolation)
        } else {
            None
        }
    }
}

/// The status code of an operation's outcome: zero for success, the error
/// kind's code otherwise.
pub open spec fn spec_status_code(outcome: Result<(), CaptureError>) -> i32 {
    match outcome {
        Ok(_) => 0i32,
        Err(e) => e.spec_code(),
    }
}

/// Returns the status code that reports `outcome` across a C boundary.
#[verifier::when_used_as_spec(spec_status_code)]
pub fn status_code(outcome: Result<(), CaptureError>) -> (c: i32)
    ensures
        c == spec_status_code(outcome),
{
    match outcome {
        Ok(_) => 0,
        Err(e) => e.code(),
    }
}

/// A status code is zero exactly for success, and two outcomes with the same
/// status code are the same outcome.
pub proof fn lemma_status_code_faithful(a: Result<(), CaptureError>, b: Result<(), CaptureError>)
    ensures
        spec_status_code(a) == 0 <==> a is Ok,
        spec_status_code(a) == spec_status_code(b) ==> a == b,
{
    if a is Ok && b is Ok {
        assert(a->Ok_0 == b->Ok_0);
    }
}

} // verus!
