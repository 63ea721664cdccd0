//! The vocabulary between a capture session and its driver: the states of a
//! session, the work it asks the driver to perform and the outcomes that the
//! driver reports.

use vstd::prelude::*;
use crate::capture_loop::WaitToken;
use crate::checkout::EndpointBuffer;
use crate::queue::DispatchQueueToken;

verus! {

/// The lifecycle of a capture session. It only moves forward.
#[derive(Clone, Copy, Debug, PartialEq, Eq, Structural)]
pub enum SessionState {
    /// Created; nothing was asked of the system yet.
    Uninitialized,
    /// The endpoint is being activated and the format negotiated.
    Activating,
    /// The format stands; queue, endpoint start and first wait are under way.
    FormatNegotiated,
    /// Capturing: the loop delivers packets.
    Running,
    /// Torn down by `stop`; cannot be started again.
    Stopped,
    /// Ended by an error that the session carries.
    Failed,
}

/// The piece of outside work that a starting session is waiting for.
#[derive(Clone, Copy, Debug, PartialEq, Eq, Structural)]
pub enum StartStep {
    /// Activation of the process-scoped endpoint.
    Activate,
    /// Initialization of the endpoint with the derived format.
    NegotiateFormat,
    /// The lease of a dispatch queue.
    AcquireQueue,
    /// The queue's confirmation that it processes work.
    AwaitQueueReady,
    /// The endpoint's move into the running state.
    StartEndpoint,
    /// The first wait on the data-ready signal.
    ArmWait,
}

/// Whether the capture covers the processes that the target has spawned.
#[derive(Clone, Copy, Debug, PartialEq, Eq, Structural)]
pub enum LoopbackMode {
    /// The target process and every process it has spawned.
    IncludeProcessTree,
    /// The target process alone.
    ExcludeProcessTree,
}

/// What the driver must do next while a session starts.
#[derive(Clone, Copy, Debug, PartialEq, Eq, Structural)]
pub enum StartAction {
    /// Activate the process-scoped endpoint and await its completion.
    Activate { process_id: u32, mode: LoopbackMode },
    /// Initialize the endpoint with the session's format, obtain its checkout
    /// interface and bind a fresh data-ready signal to it.
    NegotiateFormat,
    /// Lease a dispatch queue.
    AcquireQueue,
    /// Await the confirmation that the leased queue processes work.
    AwaitQueueReady { queue: DispatchQueueToken },
    /// Put the endpoint into the running state.
    StartEndpoint,
    /// Arm the first wait on the data-ready signal.
    ArmWait { signal: isize },
    /// Nothing: the session is running.
    Finished,
}

/// The outcome of the work that a starting session asked for.
#[derive(Clone, Copy, Debug, PartialEq, Eq, Structural)]
pub enum StartEvent {
    /// The endpoint was activated.
    Activated,
    /// The endpoint accepted the format; `signal` is bound to it.
    FormatAccepted { signal: isize },
    /// A dispatch queue was leased.
    QueueAcquired { queue: DispatchQueueToken },
    /// The queue confirmed that it processes work.
    QueueReady,
    /// The endpoint is in the running state.
    EndpointStarted,
    /// The first wait is armed.
    WaitArmed { token: WaitToken },
    /// The work that was asked for failed.
    Failed,
}

/// What a completion does after its attempt to arm the next wait.
#[derive(Clone, Copy, Debug, PartialEq, Eq, Structural)]
pub enum Delivery {
    /// Invoke the sample-ready callback.
    Deliver,
    /// Invoke nothing, and cancel `cancel` if it names a token.
    Discard { cancel: Option<WaitToken> },
}

/// What is left to release when a session stops, in the order in which the
/// driver releases it.
#[derive(Clone, Copy, Debug, PartialEq, Eq, Structural)]
pub struct StopPlan {
    /// The wait to cancel; cancelling one that has fired is harmless.
    pub cancel_wait: Option<WaitToken>,
    /// Whether the endpoint must leave the running state.
    pub stop_endpoint: bool,
    /// Whether the endpoint and its checkout interface must be let go.
    pub release_endpoint: bool,
    /// The queue lease to give back.
    pub release_queue: Option<DispatchQueueToken>,
    /// The data-ready signal to close.
    pub close_signal: Option<isize>,
}

impl StopPlan {
    /// The plan of a session that holds nothing.
    pub open spec fn nothing() -> StopPlan {
        StopPlan {
            cancel_wait: None,
            stop_endpoint: false,
            release_endpoint: false,
            release_queue: None,
            close_signal: None,
        }
    }

    /// Whether the plan asks for nothing.
    pub fn is_nothing(&self) -> (empty: bool)
        ensures
            empty == (*self == StopPlan::nothing()),
    {
        self.cancel_wait.is_none() && !self.stop_endpoint && !self.release_endpoint
            && self.release_queue.is_none() && self.close_signal.is_none()
    }
}

/// Anything that can happen to a session.
pub enum SessionEvent {
    /// `start` is called.
    Start,
    /// `advance` is called with the outcome `event`.
    Advance { event: StartEvent },
    /// `get_next_packet_size` is called with the endpoint's answer.
    PacketSize { reported: Option<u32> },
    /// `get_buffer` is called with what the endpoint handed out.
    GetBuffer { fetched: Option<EndpointBuffer> },
    /// `release_buffer` is called for `frames` frames.
    ReleaseBuffer { frames: u32, released: bool },
    /// `signal_fired` is called by a completion.
    SignalFired,
    /// `rearmed` is called by a completion.
    Rearmed { armed: Option<WaitToken> },
    /// `stop` is called.
    Stop,
}

} // verus!
