//! The lease on the dispatch queue that runs a session's callbacks.

use vstd::prelude::*;
use crate::error::CaptureError;

verus! {

/// A lease on one work-dispatch queue, named by the identifier that the
/// scheduler gave out.
#[derive(Clone, Copy, Debug, PartialEq, Eq, Structural)]
pub struct DispatchQueueToken {
    /// Identifier of the leased queue.
    pub queue_id: u32,
}

/// Holds at most one queue lease: taken once, given back once.
#[derive(Debug)]
pub struct QueueLease {
    held: Option<DispatchQueueToken>,
}

impl View for QueueLease {
    type V = Option<DispatchQueueToken>;

    closed spec fn view(&self) -> Option<DispatchQueueToken> {
        self.held
    }
}

/// The lease slot after an attempt to store `token`, and whether it was
/// accepted: a second lease is refused.
pub open spec fn acquire_lease(held: Option<DispatchQueueToken>, token: DispatchQueueToken) -> (
    Option<DispatchQueueToken>,
    Result<(), CaptureError>,
) {
    if held is None {
        (Some(token), Ok(()))
    } else {
        (held, Err(CaptureError::ProtocolViolation))
    }
}

impl QueueLease {
    /// Creates an empty lease slot.
    pub fn new() -> (lease: QueueLease)
        ensures
            lease@ is None,
    {
        QueueLease { held: None }
    }

    /// The lease that is held, if one is.
    pub fn held(&self) -> (token: Option<DispatchQueueToken>)
        ensures
            token == self@,
    {
        self.held
    }

    /// Stores a lease that the scheduler granted. Refused with
    /// `ProtocolViolation`, and the slot unchanged, when one is already held.
    pub fn acquire(&mut self, token: DispatchQueueToken) -> (result: Result<(), CaptureError>)
        ensures
            (final(self)@, result) == acquire_lease(old(self)@, token),
    {
        if self.held.is_none() {
            self.held = Some(token);
            Ok(())
        } else {
            Err(CaptureError::ProtocolViolation)
        }
    }

    /// Empties the slot and returns the lease to give back, if one was held.
    pub fn release(&mut self) -> (token: Option<DispatchQueueToken>)
        ensures
            token == old(self)@,
            final(self)@ is None,
    {
        let token = self.held;
        self.held = None;
        token
    }
}

} // verus!
