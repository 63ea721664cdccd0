//! The capture session as a mathematical state machine.
//!
//! Every operation of a session is a total function from the session's state
//! and the outcome that the driver reports to the next state and an answer.

use vstd::prelude::*;
use crate::capture_loop::{FireAction, LoopModel, LoopState, WaitToken};
use crate::checkout::{BufferPacket, CheckoutModel, EndpointBuffer};
use crate::error::CaptureError;
use crate::format::{negotiable, FormatModel};
use crate::protocol::{
    Delivery,
    LoopbackMode,
    SessionEvent,
    SessionState,
    StartAction,
    StartEvent,
    StartStep,
    StopPlan,
};
use crate::queue::{acquire_lease, DispatchQueueToken};

verus! {

/// The error that a failed piece of start work stands for.
pub open spec fn failure_of(step: StartStep) -> CaptureError {
    match step {
        StartStep::Activate => CaptureError::ActivationFailed,
        StartStep::NegotiateFormat => CaptureError::FormatNegotiationFailed,
        StartStep::AcquireQueue => CaptureError::QueueAcquisitionFailed,
        StartStep::AwaitQueueReady => CaptureError::QueueAcquisitionFailed,
        StartStep::StartEndpoint => CaptureError::DeviceFault,
        StartStep::ArmWait => CaptureError::DeviceFault,
    }
}

/// The mathematical content of a capture session.
pub struct SessionModel {
    /// The process whose audio is captured.
    pub process_id: u32,
    /// Whether the processes that the target spawned are captured too.
    pub include_process_tree: bool,
    /// Requested number of channels.
    pub channel_count: nat,
    /// Requested frames per second.
    pub sample_rate: nat,
    /// Requested bits per sample.
    pub bits_per_sample: nat,
    /// Where the session stands in its lifecycle.
    pub state: SessionState,
    /// The start work that the session waits for.
    pub pending: Option<StartStep>,
    /// Why the session failed.
    pub failure: Option<CaptureError>,
    /// The negotiated format.
    pub format: Option<FormatModel>,
    /// Whether the session holds the activated endpoint.
    pub activated: bool,
    /// Whether the endpoint is in the running state.
    pub started: bool,
    /// The data-ready signal bound to the endpoint.
    pub signal: Option<isize>,
    /// The leased dispatch queue.
    pub queue: Option<DispatchQueueToken>,
    /// The loop that keeps one wait armed.
    pub capture_loop: LoopModel,
    /// The packet protocol of the endpoint.
    pub checkout: CheckoutModel,
}

impl SessionModel {
    /// A session as it is created.
    pub open spec fn fresh(
        process_id: u32,
        include_process_tree: bool,
        channel_count: nat,
        sample_rate: nat,
        bits_per_sample: nat,
    ) -> SessionModel {
        SessionModel {
            process_id,
            include_process_tree,
            channel_count,
            sample_rate,
            bits_per_sample,
            state: SessionState::Uninitialized,
            pending: None,
            failure: None,
            format: None,
            activated: false,
            started: false,
            signal: None,
            queue: None,
            capture_loop: LoopModel::idle(),
            checkout: CheckoutModel::fresh(),
        }
    }

    /// The loopback mode that the configuration asks for.
    pub open spec fn mode(self) -> LoopbackMode {
        if self.include_process_tree {
            LoopbackMode::IncludeProcessTree
        } else {
            LoopbackMode::ExcludeProcessTree
        }
    }

    /// The error for an operation that the state does not admit: the failure
    /// that the session carries, or else a protocol violation.
    pub open spec fn rejection(self) -> CaptureError {
        match self.failure {
            Some(reason) => reason,
            None => CaptureError::ProtocolViolation,
        }
    }

    /// The session after it failed for `reason`: the loop is halted and the
    /// packet protocol reset, while what was acquired stays for `stop`.
    pub open spec fn fail(self, reason: CaptureError) -> SessionModel {
        SessionModel {
            state: SessionState::Failed,
            pending: None,
            failure: Some(reason),
            capture_loop: self.capture_loop.halt(),
            checkout: CheckoutModel::fresh(),
            ..self
        }
    }

    /// `start`: an uninitialized session begins to activate.
    pub open spec fn start(self) -> (SessionModel, Result<StartAction, CaptureError>) {
        if self.state == SessionState::Uninitialized {
            (
                SessionModel {
                    state: SessionState::Activating,
                    pending: Some(StartStep::Activate),
                    ..self
                },
                Ok(StartAction::Activate { process_id: self.process_id, mode: self.mode() }),
            )
        } else {
            (self, Err(self.rejection()))
        }
    }

    /// The session after the endpoint was activated: the format is derived
    /// from the requested parameters, or the session fails.
    pub open spec fn activated(self) -> (SessionModel, Result<StartAction, CaptureError>) {
        if negotiable(self.channel_count, self.sample_rate, self.bits_per_sample) {
            (
                SessionModel {
                    activated: true,
                    pending: Some(StartStep::NegotiateFormat),
                    format: Some(
                        FormatModel::of(self.channel_count, self.sample_rate, self.bits_per_sample),
                    ),
                    ..self
                },
                Ok(StartAction::NegotiateFormat),
            )
        } else {
            (
                SessionModel { activated: true, ..self }.fail(
                    CaptureError::FormatNegotiationFailed,
                ),
                Err(CaptureError::FormatNegotiationFailed),
            )
        }
    }

    /// The session after the first wait was armed.
    pub open spec fn wait_armed(self, token: WaitToken) -> (
        SessionModel,
        Result<StartAction, CaptureError>,
    ) {
        if self.capture_loop.can_arm() {
            (
                SessionModel {
                    state: SessionState::Running,
                    pending: None,
                    capture_loop: self.capture_loop.arm(token).0,
                    ..self
                },
                Ok(StartAction::Finished),
            )
        } else {
            (self, Err(CaptureError::ProtocolViolation))
        }
    }

    /// The session after the work for `step` succeeded with `event`. An event
    /// that does not answer `step` is a protocol violation.
    pub open spec fn proceed(self, step: StartStep, event: StartEvent) -> (
        SessionModel,
        Result<StartAction, CaptureError>,
    ) {
        match (step, event) {
            (StartStep::Activate, StartEvent::Activated) => self.activated(),
            (StartStep::NegotiateFormat, StartEvent::FormatAccepted { signal }) => (
                SessionModel {
                    state: SessionState::FormatNegotiated,
                    pending: Some(StartStep::AcquireQueue),
                    signal: Some(signal),
                    ..self
                },
                Ok(StartAction::AcquireQueue),
            ),
            (StartStep::AcquireQueue, StartEvent::QueueAcquired { queue }) => {
                let (held, accepted) = acquire_lease(self.queue, queue);
                match accepted {
                    Ok(_) => (
                        SessionModel {
                            pending: Some(StartStep::AwaitQueueReady),
                            queue: held,
                            ..self
                        },
                        Ok(StartAction::AwaitQueueReady { queue }),
                    ),
                    Err(e) => (self, Err(e)),
                }
            },
            (StartStep::AwaitQueueReady, StartEvent::QueueReady) => (
                SessionModel { pending: Some(StartStep::StartEndpoint), ..self },
                Ok(StartAction::StartEndpoint),
            ),
            (StartStep::StartEndpoint, StartEvent::EndpointStarted) => match self.signal {
                Some(signal) => (
                    SessionModel { pending: Some(StartStep::ArmWait), started: true, ..self },
                    Ok(StartAction::ArmWait { signal }),
                ),
                None => (self, Err(CaptureError::ProtocolViolation)),
            },
            (StartStep::ArmWait, StartEvent::WaitArmed { token }) => self.wait_armed(token),
            _ => (self, Err(CaptureError::ProtocolViolation)),
        }
    }

    /// `advance`: the driver reports the outcome of the start work.
    pub open spec fn advance(self, event: StartEvent) -> (
        SessionModel,
        Result<StartAction, CaptureError>,
    ) {
        match self.pending {
            None => (self, Err(self.rejection())),
            Some(step) => if event is Failed {
                (self.fail(failure_of(step)), Err(failure_of(step)))
            } else {
                self.proceed(step, event)
            },
        }
    }

    /// Whether the endpoint may be asked for anything: the error if not.
    pub open spec fn running_refusal(self) -> Option<CaptureError> {
        if self.state == SessionState::Running {
            None
        } else {
            Some(self.rejection())
        }
    }

    /// `get_next_packet_size`: the driver reports what the endpoint answered.
    pub open spec fn get_next_packet_size(self, reported: Option<u32>) -> (
        SessionModel,
        Result<u32, CaptureError>,
    ) {
        match self.running_refusal() {
            Some(e) => (self, Err(e)),
            None => match reported {
                Some(frames) => (
                    SessionModel { checkout: self.checkout.observe(frames as nat), ..self },
                    Ok(frames),
                ),
                None => (self.fail(CaptureError::DeviceFault), Err(CaptureError::DeviceFault)),
            },
        }
    }

    /// Whether a packet may be checked out: the error if not.
    pub open spec fn checkout_refusal(self) -> Option<CaptureError> {
        if self.state != SessionState::Running {
            Some(self.rejection())
        } else if !self.checkout.can_checkout() || self.format is None {
            Some(CaptureError::ProtocolViolation)
        } else {
            None
        }
    }

    /// `get_buffer`: the driver reports what the endpoint handed out.
    pub open spec fn get_buffer(self, fetched: Option<EndpointBuffer>) -> (
        SessionModel,
        Result<BufferPacket, CaptureError>,
    ) {
        match self.checkout_refusal() {
            Some(e) => (self, Err(e)),
            None => match fetched {
                Some(buffer) => {
                    let (checkout, size) = self.checkout.checkout(
                        buffer.frames as nat,
                        self.format->0.block_align,
                    );
                    match size {
                        Ok(bytes) => (
                            SessionModel { checkout, ..self },
                            Ok(BufferPacket { data: buffer.data, size: bytes as u32 }),
                        ),
                        Err(_) => (
                            self.fail(CaptureError::DeviceFault),
                            Err(CaptureError::DeviceFault),
                        ),
                    }
                },
                None => (self.fail(CaptureError::DeviceFault), Err(CaptureError::DeviceFault)),
            },
        }
    }

    /// Whether `frames` frames may be released: the error if not.
    pub open spec fn release_refusal(self, frames: u32) -> Option<CaptureError> {
        if self.state != SessionState::Running {
            Some(self.rejection())
        } else if !self.checkout.can_release(frames as nat) {
            Some(CaptureError::ProtocolViolation)
        } else {
            None
        }
    }

    /// `release_buffer`: the driver reports whether the endpoint took the
    /// packet back.
    pub open spec fn release_buffer(self, frames: u32, released: bool) -> (
        SessionModel,
        Result<(), CaptureError>,
    ) {
        match self.release_refusal(frames) {
            Some(e) => (self, Err(e)),
            None => if released {
                (SessionModel { checkout: self.checkout.release(frames as nat).0, ..self }, Ok(()))
            } else {
                (self.fail(CaptureError::DeviceFault), Err(CaptureError::DeviceFault))
            },
        }
    }

    /// `signal_fired`: a completion runs because the data-ready signal fired.
    pub open spec fn signal_fired(self) -> (SessionModel, FireAction) {
        let (capture_loop, action) = self.capture_loop.fire();
        (SessionModel { capture_loop, ..self }, action)
    }

    /// `rearmed`: the completion reports its attempt to arm the next wait.
    pub open spec fn rearmed(self, armed: Option<WaitToken>) -> (SessionModel, Delivery) {
        if self.state == SessionState::Running && self.capture_loop.can_arm() {
            match armed {
                Some(token) => (
                    SessionModel { capture_loop: self.capture_loop.arm(token).0, ..self },
                    Delivery::Deliver,
                ),
                None => (self.fail(CaptureError::DeviceFault), Delivery::Discard { cancel: None }),
            }
        } else {
            (self, Delivery::Discard { cancel: armed })
        }
    }

    /// `stop`: everything that the session holds goes into the plan, and the
    /// session is left stopped and empty.
    pub open spec fn stop(self) -> (SessionModel, StopPlan) {
        (
            SessionModel {
                state: SessionState::Stopped,
                pending: None,
                failure: None,
                activated: false,
                started: false,
                signal: None,
                queue: None,
                capture_loop: self.capture_loop.cancel().0,
                checkout: CheckoutModel::fresh(),
                ..self
            },
            StopPlan {
                cancel_wait: self.capture_loop.token,
                stop_endpoint: self.started,
                release_endpoint: self.activated,
                release_queue: self.queue,
                close_signal: self.signal,
            },
        )
    }

    /// The session after one event.
    pub open spec fn step(self, event: SessionEvent) -> SessionModel {
        match event {
            SessionEvent::Start => self.start().0,
            SessionEvent::Advance { event } => self.advance(event).0,
            SessionEvent::PacketSize { reported } => self.get_next_packet_size(reported).0,
            SessionEvent::GetBuffer { fetched } => self.get_buffer(fetched).0,
            SessionEvent::ReleaseBuffer { frames, released } => self.release_buffer(
                frames,
                released,
            ).0,
            SessionEvent::SignalFired => self.signal_fired().0,
            SessionEvent::Rearmed { armed } => self.rearmed(armed).0,
            SessionEvent::Stop => self.stop().0,
        }
    }

    /// The session after a sequence of events.
    pub open spec fn run(self, events: Seq<SessionEvent>) -> SessionModel
        decreases events.len(),
    {
        if events.len() == 0 {
            self
        } else {
            self.run(events.drop_last()).step(events.last())
        }
    }

    /// Whether `event` has the sample-ready callback invoked here.
    pub open spec fn delivers(self, event: SessionEvent) -> bool {
        event matches SessionEvent::Rearmed { armed } && self.rearmed(armed).1 == Delivery::Deliver
    }

    /// Whether `event` has a completion arm another wait here.
    pub open spec fn asks_rearm(self, event: SessionEvent) -> bool {
        event is SignalFired && self.signal_fired().1 == FireAction::Rearm
    }

    /// Whether `event` brings a wait token to life here: the first wait of a
    /// starting session, or a completion's next wait, is accepted.
    pub open spec fn arms(self, event: SessionEvent) -> bool {
        match event {
            SessionEvent::Advance { event: StartEvent::WaitArmed { token } } => self.advance(
                StartEvent::WaitArmed { token },
            ).1 is Ok,
            SessionEvent::Rearmed { armed: Some(token) } => self.rearmed(Some(token)).1
                == Delivery::Deliver,
            _ => false,
        }
    }

    /// Whether `event` ends the life of the live wait token here, by firing or
    /// by cancellation.
    pub open spec fn retires(self, event: SessionEvent) -> bool {
        (event is SignalFired || event is Stop) && self.capture_loop.token is Some
    }

    /// Whether `event` is a checkout that succeeds here.
    pub open spec fn checks_out(self, event: SessionEvent) -> bool {
        event matches SessionEvent::GetBuffer { fetched } && self.get_buffer(fetched).1 is Ok
    }

    /// Whether `event` is a release that succeeds here.
    pub open spec fn releases(self, event: SessionEvent) -> bool {
        event matches SessionEvent::ReleaseBuffer { frames, released } && self.release_buffer(
            frames,
            released,
        ).1 is Ok
    }

    /// Whether `event` takes the checked-out packet away without a release,
    /// as a failure or a stop does.
    pub open spec fn abandons(self, event: SessionEvent) -> bool {
        &&& self.checkout.outstanding is Some
        &&& self.step(event).checkout.outstanding is None
        &&& !self.releases(event)
    }

    /// Number of events in a sequence that `hit` holds of, each judged in the
    /// state that the events before it lead to.
    pub open spec fn count(
        self,
        events: Seq<SessionEvent>,
        hit: spec_fn(SessionModel, SessionEvent) -> bool,
    ) -> nat
        decreases events.len(),
    {
        if events.len() == 0 {
            0
        } else {
            self.count(events.drop_last(), hit) + if hit(
                self.run(events.drop_last()),
                events.last(),
            ) {
                1nat
            } else {
                0nat
            }
        }
    }

    /// Number of wait tokens brought to life in a sequence of events.
    pub open spec fn armed_count(self, events: Seq<SessionEvent>) -> nat {
        self.count(events, |s: SessionModel, e: SessionEvent| s.arms(e))
    }

    /// Number of wait tokens fired or cancelled in a sequence of events.
    pub open spec fn retired_count(self, events: Seq<SessionEvent>) -> nat {
        self.count(events, |s: SessionModel, e: SessionEvent| s.retires(e))
    }

    /// Number of checkouts that succeed in a sequence of events.
    pub open spec fn checkout_count(self, events: Seq<SessionEvent>) -> nat {
        self.count(events, |s: SessionModel, e: SessionEvent| s.checks_out(e))
    }

    /// Number of releases that succeed in a sequence of events.
    pub open spec fn release_count(self, events: Seq<SessionEvent>) -> nat {
        self.count(events, |s: SessionModel, e: SessionEvent| s.releases(e))
    }

    /// Number of packets taken away without a release in a sequence of
    /// events.
    pub open spec fn abandoned_count(self, events: Seq<SessionEvent>) -> nat {
        self.count(events, |s: SessionModel, e: SessionEvent| s.abandons(e))
    }

    /// What the start work in progress has acquired so far.
    pub open spec fn start_progress_wf(self, step: StartStep) -> bool {
        &&& self.activated <==> step != StartStep::Activate
        &&& self.format is Some <==> step != StartStep::Activate
        &&& self.signal is Some <==> step != StartStep::Activate && step
            != StartStep::NegotiateFormat
        &&& self.queue is Some <==> step == StartStep::AwaitQueueReady || step
            == StartStep::StartEndpoint || step == StartStep::ArmWait
        &&& self.started <==> step == StartStep::ArmWait
        &&& self.state == if step == StartStep::Activate || step == StartStep::NegotiateFormat {
            SessionState::Activating
        } else {
            SessionState::FormatNegotiated
        }
    }

    /// The invariant of a session: what it holds fits the state it is in.
    pub open spec fn wf(self) -> bool {
        &&& self.capture_loop.wf()
        &&& self.failure is Some <==> self.state == SessionState::Failed
        &&& self.format matches Some(format) ==> format.wf() && format == FormatModel::of(
            self.channel_count,
            self.sample_rate,
            self.bits_per_sample,
        )
        &&& self.started ==> self.activated
        &&& self.signal is Some ==> self.activated
        &&& self.capture_loop.token is Some ==> self.started
        &&& self.checkout.outstanding is Some ==> self.state == SessionState::Running
        &&& self.state != SessionState::Running ==> self.checkout == CheckoutModel::fresh()
        &&& match self.state {
            SessionState::Uninitialized => self == SessionModel::fresh(
                self.process_id,
                self.include_process_tree,
                self.channel_count,
                self.sample_rate,
                self.bits_per_sample,
            ),
            SessionState::Activating | SessionState::FormatNegotiated => {
                &&& self.pending matches Some(step)
                &&& self.start_progress_wf(step)
                &&& self.capture_loop == LoopModel::idle()
            },
            SessionState::Running => {
                &&& self.pending is None
                &&& self.activated
                &&& self.started
                &&& self.format is Some
                &&& self.signal is Some
                &&& self.queue is Some
                &&& (self.capture_loop.state == LoopState::Armed || self.capture_loop.state
                    == LoopState::Firing)
            },
            SessionState::Stopped => {
                &&& self.pending is None
                &&& !self.activated
                &&& self.queue is None
                &&& self.capture_loop == LoopModel { state: LoopState::Stopped, token: None }
            },
            SessionState::Failed => {
                &&& self.pending is None
                &&& self.capture_loop.state == LoopState::Stopped
            },
        }
    }
}

} // verus!
