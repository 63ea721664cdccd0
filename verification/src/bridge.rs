//! A one-shot bridge from a completion callback to an awaiting task.
//!
//! One side polls and leaves the handle of its suspended task; the other side
//! completes, once, and is handed the handle to wake. Whichever side comes
//! first, the awaiting task observes the completion.

use vstd::prelude::*;

verus! {

/// What a poll of the bridge found.
#[derive(Clone, Copy, Debug, PartialEq, Eq, Structural)]
pub enum BridgePoll {
    /// The operation has completed.
    Ready,
    /// The operation is still in flight; the handle was recorded.
    Pending,
}

/// The mathematical content of a [`CompletionBridge`].
pub struct BridgeModel<W> {
    /// Whether the completion callback has run.
    pub completed: bool,
    /// The handle of the task to wake on completion, if one is suspended.
    pub waiter: Option<W>,
}

impl<W> BridgeModel<W> {
    /// A fresh bridge: nothing completed, nobody waiting.
    pub open spec fn fresh() -> BridgeModel<W> {
        BridgeModel { completed: false, waiter: None }
    }

    /// No task is left waiting on a completed bridge.
    pub open spec fn wf(self) -> bool {
        self.completed ==> self.waiter is None
    }

    /// The bridge after a poll that offers `handle`, and what the poll
    /// answers. A pending poll replaces the recorded handle.
    pub open spec fn poll(self, handle: W) -> (BridgeModel<W>, BridgePoll) {
        if self.completed {
            (self, BridgePoll::Ready)
        } else {
            (BridgeModel { completed: false, waiter: Some(handle) }, BridgePoll::Pending)
        }
    }

    /// The bridge after the completion callback, and the handle to wake.
    /// A repeated completion changes nothing and wakes nobody.
    pub open spec fn complete(self) -> (BridgeModel<W>, Option<W>) {
        if self.completed {
            (self, None)
        } else {
            (BridgeModel { completed: true, waiter: None }, self.waiter)
        }
    }
}

/// Turns one callback-based operation into a one-shot awaitable.
pub struct CompletionBridge<W> {
    completed: bool,
    waiter: Option<W>,
}

impl<W> View for CompletionBridge<W> {
    type V = BridgeModel<W>;

    closed spec fn view(&self) -> BridgeModel<W> {
        BridgeModel { completed: self.completed, waiter: self.waiter }
    }
}

impl<W> CompletionBridge<W> {
    /// Creates a bridge for an operation that has not completed.
    pub fn new() -> (bridge: CompletionBridge<W>)
        ensures
            bridge@ == BridgeModel::<W>::fresh(),
            bridge@.wf(),
    {
        CompletionBridge { completed: false, waiter: None }
    }

    /// Whether the completion callback has run.
    pub fn is_completed(&self) -> (done: bool)
        ensures
            done == self@.completed,
    {
        self.completed
    }

    /// Polls on behalf of the task that `handle` wakes.
    pub fn poll(&mut self, handle: W) -> (answer: BridgePoll)
        ensures
            (final(self)@, answer) == old(self)@.poll(handle),
            old(self)@.wf() ==> final(self)@.wf(),
    {
        if self.completed {
            BridgePoll::Ready
        } else {
            self.waiter = Some(handle);
            BridgePoll::Pending
        }
    }

    /// Records the completion and hands back the handle of the task to wake.
    pub fn complete(&mut self) -> (woken: Option<W>)
        ensures
            (final(self)@, woken) == old(self)@.complete(),
            old(self)@.wf() ==> final(self)@.wf(),
    {
        if self.completed {
            None
        } else {
            self.completed = true;
            self.waiter.take()
        }
    }
}

/// A completion that arrives before the first poll is not lost: the poll that
/// follows is ready at once.
pub proof fn lemma_completion_before_poll<W>(bridge: BridgeModel<W>, handle: W)
    ensures
        bridge.complete().0.poll(handle).1 == BridgePoll::Ready,
{
}

/// A task that was told to wait is the one woken: after a pending poll, the
/// completion hands back exactly the handle that the poll left.
pub proof fn lemma_pending_poll_is_woken<W>(bridge: BridgeModel<W>, handle: W)
    requires
        bridge.poll(handle).1 == BridgePoll::Pending,
    ensures
        bridge.poll(handle).0.complete().1 == Some(handle),
        bridge.poll(handle).0.complete().0.completed,
{
}

/// Only the first completion has an effect: a second one leaves the bridge as
/// it is and wakes nobody.
pub proof fn lemma_second_completion_ignored<W>(bridge: BridgeModel<W>)
    ensures
        bridge.complete().0.complete() == (bridge.complete().0, None::<W>),
{
}

/// Both transitions keep the bridge well-formed.
pub proof fn lemma_bridge_wf_preserved<W>(bridge: BridgeModel<W>, handle: W)
    requires
        bridge.wf(),
    ensures
        bridge.poll(handle).0.wf(),
        bridge.complete().0.wf(),
{
}

} // verus!
