//! The self re-arming capture loop.
//!
//! One registration, a wait token, asks the dispatch queue to run a completion
//! when the data-ready signal next fires. The completion that runs first arms
//! the next token and only then has the sample-ready callback invoked, so the
//! queue is never left unarmed while the callback works. The controller keeps
//! at most one token live and stops arming once the loop is halted.

use vstd::prelude::*;
use crate::error::CaptureError;

verus! {

/// One outstanding registration with the dispatch queue.
#[derive(Clone, Copy, Debug, PartialEq, Eq, Structural)]
pub struct WaitToken {
    /// Key under which the queue knows the registration.
    pub key: u64,
}

/// Where the capture loop stands.
#[derive(Clone, Copy, Debug, PartialEq, Eq, Structural)]
pub enum LoopState {
    /// Never armed.
    Idle,
    /// A token is live and no completion is running.
    Armed,
    /// The signal fired and the completion has not armed the next token yet.
    Firing,
    /// Halted: no token will be armed again.
    Stopped,
}

/// What a completion must do when the signal has fired.
#[derive(Clone, Copy, Debug, PartialEq, Eq, Structural)]
pub enum FireAction {
    /// Do nothing: the loop is not running.
    Abstain,
    /// Arm the next token, then report it.
    Rearm,
}

/// The mathematical content of a [`CaptureLoopController`].
pub struct LoopModel {
    /// Where the loop stands.
    pub state: LoopState,
    /// The live token, if one is.
    pub token: Option<WaitToken>,
}

/// One event in the life of the capture loop.
pub enum LoopOp {
    /// An attempt to arm `token`.
    Arm { token: WaitToken },
    /// The signal fired and a completion runs.
    Fire,
    /// The loop is halted after a fault.
    Halt,
    /// The loop is stopped and its live token cancelled.
    Cancel,
}

impl LoopModel {
    /// A loop that was never armed.
    pub open spec fn idle() -> LoopModel {
        LoopModel { state: LoopState::Idle, token: None }
    }

    /// An armed loop has a live token; an idle or firing loop has none.
    pub open spec fn wf(self) -> bool {
        match self.state {
            LoopState::Armed => self.token is Some,
            LoopState::Idle | LoopState::Firing => self.token is None,
            LoopState::Stopped => true,
        }
    }

    /// Number of live tokens: zero or one.
    pub open spec fn live(self) -> nat {
        if self.token is Some {
            1
        } else {
            0
        }
    }

    /// Whether a token may be armed: the loop is idle or firing and no token
    /// is live.
    pub open spec fn can_arm(self) -> bool {
        (self.state == LoopState::Idle || self.state == LoopState::Firing) && self.token is None
    }

    /// The loop after an attempt to arm `token`, and whether it was accepted.
    pub open spec fn arm(self, token: WaitToken) -> (LoopModel, Result<(), CaptureError>) {
        if self.can_arm() {
            (LoopModel { state: LoopState::Armed, token: Some(token) }, Ok(()))
        } else {
            (self, Err(CaptureError::ProtocolViolation))
        }
    }

    /// The loop after the signal fired, and what the completion must do. The
    /// live token is consumed; only an armed loop asks for the next one.
    pub open spec fn fire(self) -> (LoopModel, FireAction) {
        if self.state == LoopState::Armed {
            (LoopModel { state: LoopState::Firing, token: None }, FireAction::Rearm)
        } else {
            (LoopModel { state: self.state, token: None }, FireAction::Abstain)
        }
    }

    /// The loop after it was halted: it arms no more, and a token that is
    /// live stays so until it fires or is cancelled.
    pub open spec fn halt(self) -> LoopModel {
        LoopModel { state: LoopState::Stopped, token: self.token }
    }

    /// The loop after it was stopped, and the token to cancel.
    pub open spec fn cancel(self) -> (LoopModel, Option<WaitToken>) {
        (LoopModel { state: LoopState::Stopped, token: None }, self.token)
    }

    /// The loop after one event.
    pub open spec fn step(self, op: LoopOp) -> LoopModel {
        match op {
            LoopOp::Arm { token } => self.arm(token).0,
            LoopOp::Fire => self.fire().0,
            LoopOp::Halt => self.halt(),
            LoopOp::Cancel => self.cancel().0,
        }
    }

    /// Whether `op` brings a token to life here.
    pub open spec fn arms(self, op: LoopOp) -> bool {
        op matches LoopOp::Arm { token } && self.arm(token).1 is Ok
    }

    /// Whether `op` ends the life of a token here, by firing or by
    /// cancellation.
    pub open spec fn retires(self, op: LoopOp) -> bool {
        (op is Fire || op is Cancel) && self.token is Some
    }

    /// The loop after a sequence of events.
    pub open spec fn run(self, ops: Seq<LoopOp>) -> LoopModel
        decreases ops.len(),
    {
        if ops.len() == 0 {
            self
        } else {
            self.run(ops.drop_last()).step(ops.last())
        }
    }

    /// Number of tokens brought to life in a sequence of events.
    pub open spec fn armed_count(self, ops: Seq<LoopOp>) -> nat
        decreases ops.len(),
    {
        if ops.len() == 0 {
            0
        } else {
            self.armed_count(ops.drop_last()) + if self.run(ops.drop_last()).arms(ops.last()) {
                1nat
            } else {
                0nat
            }
        }
    }

    /// Number of tokens whose life ended in a sequence of events.
    pub open spec fn retired_count(self, ops: Seq<LoopOp>) -> nat
        decreases ops.len(),
    {
        if ops.len() == 0 {
            0
        } else {
            self.retired_count(ops.drop_last()) + if self.run(ops.drop_last()).retires(
                ops.last(),
            ) {
                1nat
            } else {
                0nat
            }
        }
    }
}

/// Arms and re-arms the one-shot wait on the data-ready signal.
#[derive(Debug)]
pub struct CaptureLoopController {
    state: LoopState,
    token: Option<WaitToken>,
}

impl View for CaptureLoopController {
    type V = LoopModel;

    closed spec fn view(&self) -> LoopModel {
        LoopModel { state: self.state, token: self.token }
    }
}

impl CaptureLoopController {
    /// Creates the controller of a loop that was never armed.
    pub fn new() -> (controller: CaptureLoopController)
        ensures
            controller@ == LoopModel::idle(),
    {
        CaptureLoopController { state: LoopState::Idle, token: None }
    }

    /// Where the loop stands.
    pub fn state(&self) -> (state: LoopState)
        ensures
            state == self@.state,
    {
        self.state
    }

    /// The live token, if one is.
    pub fn token(&self) -> (token: Option<WaitToken>)
        ensures
            token == self@.token,
    {
        self.token
    }

    /// Whether a token may be armed.
    pub fn can_arm(&self) -> (allowed: bool)
        ensures
            allowed == self@.can_arm(),
    {
        let open = match self.state {
            LoopState::Idle => true,
            LoopState::Firing => true,
            _ => false,
        };
        open && self.token.is_none()
    }

    /// Records a freshly armed token. Refused with `ProtocolViolation`, and
    /// the loop unchanged, when a token is live or the loop is halted.
    pub fn arm(&mut self, token: WaitToken) -> (result: Result<(), CaptureError>)
        ensures
            (final(self)@, result) == old(self)@.arm(token),
    {
        if self.can_arm() {
            self.state = LoopState::Armed;
            self.token = Some(token);
            Ok(())
        } else {
            Err(CaptureError::ProtocolViolation)
        }
    }

    /// Records that the signal fired and says what the completion must do.
    pub fn fire(&mut self) -> (action: FireAction)
        ensures
            (final(self)@, action) == old(self)@.fire(),
    {
        self.token = None;
        match self.state {
            LoopState::Armed => {
                self.state = LoopState::Firing;
                FireAction::Rearm
            },
            _ => FireAction::Abstain,
        }
    }

    /// Halts the loop after a fault: nothing is armed from here on.
    pub fn halt(&mut self)
        ensures
            final(self)@ == old(self)@.halt(),
    {
        self.state = LoopState::Stopped;
    }

    /// Stops the loop and returns the live token, which the caller cancels.
    /// Cancelling a token that has fired in the meantime is harmless.
    pub fn cancel(&mut self) -> (token: Option<WaitToken>)
        ensures
            (final(self)@, token) == old(self)@.cancel(),
    {
        let token = self.token;
        self.state = LoopState::Stopped;
        self.token = None;
        token
    }
}

/// Every event keeps the loop well-formed.
pub proof fn lemma_loop_wf_preserved(s: LoopModel, op: LoopOp)
    requires
        s.wf(),
    ensures
        s.step(op).wf(),
{
}

/// At most one token is live over the whole life of the loop: after any
/// sequence of events, the tokens armed exceed the tokens fired or cancelled
/// by the number that is live, which is zero or one.
pub proof fn lemma_at_most_one_token(s: LoopModel, ops: Seq<LoopOp>)
    ensures
        s.live() + s.armed_count(ops) == s.retired_count(ops) + s.run(ops).live(),
        s.run(ops).live() <= 1,
    decreases ops.len(),
{
    if ops.len() > 0 {
        lemma_at_most_one_token(s, ops.drop_last());
    }
}

/// While a token is live, arming another is refused as a protocol violation
/// and changes nothing.
pub proof fn lemma_second_token_refused(s: LoopModel, token: WaitToken)
    requires
        s.token is Some,
    ensures
        s.arm(token) == (s, Err::<(), CaptureError>(CaptureError::ProtocolViolation)),
{
}

/// A halted or stopped loop stays so: whatever happens, it arms no token and
/// asks no completion to re-arm.
pub proof fn lemma_stopped_loop_stays_stopped(s: LoopModel, ops: Seq<LoopOp>, op: LoopOp)
    requires
        s.state == LoopState::Stopped,
    ensures
        s.run(ops).state == LoopState::Stopped,
        !s.run(ops).arms(op),
        s.run(ops).fire().1 == FireAction::Abstain,
    decreases ops.len(),
{
    if ops.len() > 0 {
        lemma_stopped_loop_stays_stopped(s, ops.drop_last(), ops.last());
    }
}

} // verus!
