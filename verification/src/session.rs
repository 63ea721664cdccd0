//! The capture session: the state machine that a driver steers through
//! activation, format negotiation, start, steady-state capture and teardown.
//!
//! The session performs no system call itself. `start` and `advance` name the
//! work to do next and take its outcome; the buffer operations take what the
//! endpoint answered; `signal_fired` and `rearmed` decide what a completion
//! on the dispatch queue does; `stop` returns what is left to release. The
//! completion arms the next wait before the sample-ready callback is invoked.

use vstd::prelude::*;
use crate::capture_loop::{CaptureLoopController, FireAction, WaitToken};
use crate::checkout::{BufferCheckout, BufferPacket, EndpointBuffer};
use crate::error::CaptureError;
use crate::format::AudioFormat;
use crate::model::{failure_of, SessionModel};
use crate::protocol::{
    Delivery,
    LoopbackMode,
    SessionState,
    StartAction,
    StartEvent,
    StartStep,
    StopPlan,
};
use crate::queue::{DispatchQueueToken, QueueLease};

verus! {

/// A capture of the audio that one process renders.
#[derive(Debug)]
pub struct LoopbackCapture {
    pid: u32,
    include_process_tree: bool,
    num_channels: u16,
    num_samples_per_sec: u32,
    bits_per_sample: u16,
    state: SessionState,
    pending: Option<StartStep>,
    failure: Option<CaptureError>,
    format: Option<AudioFormat>,
    activated: bool,
    started: bool,
    signal: Option<isize>,
    queue: QueueLease,
    capture_loop: CaptureLoopController,
    checkout: BufferCheckout,
}

impl View for LoopbackCapture {
    type V = SessionModel;

    closed spec fn view(&self) -> SessionModel {
        SessionModel {
            process_id: self.pid,
            include_process_tree: self.include_process_tree,
            channel_count: self.num_channels as nat,
            sample_rate: self.num_samples_per_sec as nat,
            bits_per_sample: self.bits_per_sample as nat,
            state: self.state,
            pending: self.pending,
            failure: self.failure,
            format: match self.format {
                Some(format) => Some(format@),
                None => None,
            },
            activated: self.activated,
            started: self.started,
            signal: self.signal,
            queue: self.queue@,
            capture_loop: self.capture_loop@,
            checkout: self.checkout@,
        }
    }
}

/// Returns the error that a failed piece of start work stands for.
pub fn failure_kind(step: StartStep) -> (kind: CaptureError)
    ensures
        kind == failure_of(step),
{
    match step {
        StartStep::Activate => CaptureError::ActivationFailed,
        StartStep::NegotiateFormat => CaptureError::FormatNegotiationFailed,
        StartStep::AcquireQueue => CaptureError::QueueAcquisitionFailed,
        StartStep::AwaitQueueReady => CaptureError::QueueAcquisitionFailed,
        StartStep::StartEndpoint => CaptureError::DeviceFault,
        StartStep::ArmWait => CaptureError::DeviceFault,
    }
}

impl LoopbackCapture {
    /// Creates a session for the process `pid` with the requested PCM
    /// parameters. Nothing is asked of the system before `start`.
    pub fn new(
        pid: u32,
        include_process_tree: bool,
        num_channels: u16,
        num_samples_per_sec: u32,
        bits_per_sample: u16,
    ) -> (capture: LoopbackCapture)
        ensures
            capture@ == SessionModel::fresh(
                pid,
                include_process_tree,
                num_channels as nat,
                num_samples_per_sec as nat,
                bits_per_sample as nat,
            ),
            capture@.wf(),
    {
        LoopbackCapture {
            pid,
            include_process_tree,
            num_channels,
            num_samples_per_sec,
            bits_per_sample,
            state: SessionState::Uninitialized,
            pending: None,
            failure: None,
            format: None,
            activated: false,
            started: false,
            signal: None,
            queue: QueueLease::new(),
            capture_loop: CaptureLoopController::new(),
            checkout: BufferCheckout::new(),
        }
    }

    /// The state of the session.
    pub fn state(&self) -> (state: SessionState)
        ensures
            state == self@.state,
    {
        self.state
    }

    /// Why the session failed, if it did.
    pub fn failure(&self) -> (reason: Option<CaptureError>)
        ensures
            reason == self@.failure,
    {
        self.failure
    }

    /// The start work that the session waits for, if any.
    pub fn pending_step(&self) -> (step: Option<StartStep>)
        ensures
            step == self@.pending,
    {
        self.pending
    }

    /// The process whose audio is captured.
    pub fn process_id(&self) -> (pid: u32)
        ensures
            pid == self@.process_id,
    {
        self.pid
    }

    /// The loopback mode that the configuration asks for.
    pub fn mode(&self) -> (mode: LoopbackMode)
        ensures
            mode == self@.mode(),
    {
        if self.include_process_tree {
            LoopbackMode::IncludeProcessTree
        } else {
            LoopbackMode::ExcludeProcessTree
        }
    }

    /// The negotiated format, once the endpoint is activated.
    pub fn format(&self) -> (format: Option<AudioFormat>)
        ensures
            match format {
                Some(f) => self@.format == Some(f@),
                None => self@.format is None,
            },
    {
        self.format
    }

    /// The data-ready signal bound to the endpoint, if one is.
    pub fn signal(&self) -> (signal: Option<isize>)
        ensures
            signal == self@.signal,
    {
        self.signal
    }

    /// The leased dispatch queue, if one is.
    pub fn queue(&self) -> (queue: Option<DispatchQueueToken>)
        ensures
            queue == self@.queue,
    {
        self.queue.held()
    }

    /// The live wait token, if one is.
    pub fn wait_token(&self) -> (token: Option<WaitToken>)
        ensures
            token == self@.capture_loop.token,
    {
        self.capture_loop.token()
    }

    /// Length in frames of the packet that is checked out, if one is.
    pub fn outstanding_frames(&self) -> (held: Option<u32>)
        ensures
            match held {
                Some(frames) => self@.checkout.outstanding == Some(frames as nat),
                None => self@.checkout.outstanding is None,
            },
    {
        self.checkout.outstanding()
    }

    /// The error for an operation that the state does not admit.
    fn rejection(&self) -> (e: CaptureError)
        ensures
            e == self@.rejection(),
    {
        match self.failure {
            Some(reason) => reason,
            None => CaptureError::ProtocolViolation,
        }
    }

    /// Moves the session to `Failed` for `reason`.
    fn fail(&mut self, reason: CaptureError)
        ensures
            final(self)@ == old(self)@.fail(reason),
    {
        self.state = SessionState::Failed;
        self.pending = None;
        self.failure = Some(reason);
        self.capture_loop.halt();
        self.checkout.reset();
    }

    /// Begins to start the session and names the first piece of work:
    /// activating the endpoint for the target process.
    ///
    /// Only an uninitialized session starts. A failed one answers with the
    /// error it carries, any other with `ProtocolViolation`, and stays as it
    /// is.
    pub fn start(&mut self) -> (result: Result<StartAction, CaptureError>)
        ensures
            (final(self)@, result) == old(self)@.start(),
            old(self)@.wf() ==> final(self)@.wf(),
    {
        match self.state {
            SessionState::Uninitialized => {
                self.state = SessionState::Activating;
                self.pending = Some(StartStep::Activate);
                Ok(StartAction::Activate { process_id: self.pid, mode: self.mode() })
            },
            _ => Err(self.rejection()),
        }
    }

    /// Takes the outcome of the work that the session asked for last and
    /// names the next piece, `Finished` once the session runs.
    ///
    /// `Failed` moves the session to `Failed` with the error of the work that
    /// was pending. After activation the format is derived from the requested
    /// parameters; if they admit none, the session fails with
    /// `FormatNegotiationFailed` before the endpoint is asked. An outcome that
    /// does not answer the pending work is a `ProtocolViolation` and changes
    /// nothing, as is any outcome when no work is pending.
    pub fn advance(&mut self, event: StartEvent) -> (result: Result<StartAction, CaptureError>)
        ensures
            (final(self)@, result) == old(self)@.advance(event),
            old(self)@.wf() ==> final(self)@.wf(),
    {
        let step = match self.pending {
            Some(step) => step,
            None => {
                return Err(self.rejection());
            },
        };
        match event {
            StartEvent::Failed => {
                let reason = failure_kind(step);
                self.fail(reason);
                Err(reason)
            },
            StartEvent::Activated => match step {
                StartStep::Activate => self.on_activated(),
                _ => Err(CaptureError::ProtocolViolation),
            },
            StartEvent::FormatAccepted { signal } => match step {
                StartStep::NegotiateFormat => {
                    self.state = SessionState::FormatNegotiated;
                    self.pending = Some(StartStep::AcquireQueue);
                    self.signal = Some(signal);
                    Ok(StartAction::AcquireQueue)
                },
                _ => Err(CaptureError::ProtocolViolation),
            },
            StartEvent::QueueAcquired { queue } => match step {
                StartStep::AcquireQueue => match self.queue.acquire(queue) {
                    Ok(_) => {
                        self.pending = Some(StartStep::AwaitQueueReady);
                        Ok(StartAction::AwaitQueueReady { queue })
                    },
                    Err(e) => Err(e),
                },
                _ => Err(CaptureError::ProtocolViolation),
            },
            StartEvent::QueueReady => match step {
                StartStep::AwaitQueueReady => {
                    self.pending = Some(StartStep::StartEndpoint);
                    Ok(StartAction::StartEndpoint)
                },
                _ => Err(CaptureError::ProtocolViolation),
            },
            StartEvent::EndpointStarted => match step {
                StartStep::StartEndpoint => match self.signal {
                    Some(signal) => {
                        self.pending = Some(StartStep::ArmWait);
                        self.started = true;
                        Ok(StartAction::ArmWait { signal })
                    },
                    None => Err(CaptureError::ProtocolViolation),
                },
                _ => Err(CaptureError::ProtocolViolation),
            },
            StartEvent::WaitArmed { token } => match step {
                StartStep::ArmWait => match self.capture_loop.arm(token) {
                    Ok(_) => {
                        self.state = SessionState::Running;
                        self.pending = None;
                        Ok(StartAction::Finished)
                    },
                    Err(e) => Err(e),
                },
                _ => Err(CaptureError::ProtocolViolation),
            },
        }
    }

    /// Derives the format once the endpoint is activated.
    fn on_activated(&mut self) -> (result: Result<StartAction, CaptureError>)
        ensures
            (final(self)@, result) == old(self)@.activated(),
    {
        self.activated = true;
        match AudioFormat::negotiate(
            self.num_channels,
            self.num_samples_per_sec,
            self.bits_per_sample,
        ) {
            Ok(format) => {
                self.format = Some(format);
                self.pending = Some(StartStep::NegotiateFormat);
                Ok(StartAction::NegotiateFormat)
            },
            Err(e) => {
                self.fail(e);
                Err(e)
            },
        }
    }

    /// Whether the endpoint may be asked for anything now: `Ok` in `Running`,
    /// otherwise the error that the operation would answer with.
    pub fn check_running(&self) -> (result: Result<(), CaptureError>)
        ensures
            match result {
                Ok(_) => self@.running_refusal() is None,
                Err(e) => self@.running_refusal() == Some(e),
            },
    {
        match self.state {
            SessionState::Running => Ok(()),
            _ => Err(self.rejection()),
        }
    }

    /// Takes the endpoint's answer to the question how many frames are ready,
    /// `None` if the endpoint reported an error, and returns the frame count.
    ///
    /// Outside `Running` the answer is ignored and the session's rejection
    /// returned. A count is remembered for the next checkout; zero means that
    /// no packet may be checked out. An endpoint error fails the session with
    /// `DeviceFault`.
    pub fn get_next_packet_size(&mut self, reported: Option<u32>) -> (result: Result<
        u32,
        CaptureError,
    >)
        ensures
            (final(self)@, result) == old(self)@.get_next_packet_size(reported),
            old(self)@.wf() ==> final(self)@.wf(),
    {
        match self.check_running() {
            Ok(_) => {},
            Err(e) => {
                return Err(e);
            },
        }
        match reported {
            Some(frames) => {
                self.checkout.observe(frames);
                Ok(frames)
            },
            None => {
                self.fail(CaptureError::DeviceFault);
                Err(CaptureError::DeviceFault)
            },
        }
    }

    /// Whether a packet may be checked out now: `Ok` if so, otherwise the
    /// error that `get_buffer` would answer with.
    pub fn check_checkout(&self) -> (result: Result<(), CaptureError>)
        ensures
            match result {
                Ok(_) => self@.checkout_refusal() is None,
                Err(e) => self@.checkout_refusal() == Some(e),
            },
    {
        match self.state {
            SessionState::Running => {
                if self.checkout.can_checkout() && self.format.is_some() {
                    Ok(())
                } else {
                    Err(CaptureError::ProtocolViolation)
                }
            },
            _ => Err(self.rejection()),
        }
    }

    /// Takes the packet that the endpoint handed out, `None` if the endpoint
    /// reported an error, and returns the borrowed view of its bytes.
    ///
    /// Refused with `ProtocolViolation`, whatever the endpoint handed out,
    /// when the last reported frame count was zero or a packet is still
    /// checked out; outside `Running` with the session's rejection. An
    /// endpoint error, or a packet whose size in bytes does not fit 32 bits,
    /// fails the session with `DeviceFault`.
    pub fn get_buffer(&mut self, fetched: Option<EndpointBuffer>) -> (result: Result<
        BufferPacket,
        CaptureError,
    >)
        ensures
            (final(self)@, result) == old(self)@.get_buffer(fetched),
            old(self)@.wf() ==> final(self)@.wf(),
    {
        match self.check_checkout() {
            Ok(_) => {},
            Err(e) => {
                return Err(e);
            },
        }
        let block_align = match &self.format {
            Some(format) => format.block_align(),
            None => {
                return Err(CaptureError::ProtocolViolation);
            },
        };
        let buffer = match fetched {
            Some(buffer) => buffer,
            None => {
                self.fail(CaptureError::DeviceFault);
                return Err(CaptureError::DeviceFault);
            },
        };
        match self.checkout.checkout(buffer, block_align) {
            Ok(packet) => Ok(packet),
            Err(_) => {
                self.fail(CaptureError::DeviceFault);
                Err(CaptureError::DeviceFault)
            },
        }
    }

    /// Whether `frames` frames may be released now: `Ok` if so, otherwise the
    /// error that `release_buffer` would answer with.
    pub fn check_release(&self, frames: u32) -> (result: Result<(), CaptureError>)
        ensures
            match result {
                Ok(_) => self@.release_refusal(frames) is None,
                Err(e) => self@.release_refusal(frames) == Some(e),
            },
    {
        match self.state {
            SessionState::Running => {
                if self.checkout.can_release(frames) {
                    Ok(())
                } else {
                    Err(CaptureError::ProtocolViolation)
                }
            },
            _ => Err(self.rejection()),
        }
    }

    /// Releases the packet that is checked out, of which `frames` frames were
    /// consumed; `released` says whether the endpoint took it back.
    ///
    /// Refused with `ProtocolViolation` when no packet is checked out or it
    /// has fewer than `frames` frames; outside `Running` with the session's
    /// rejection. An endpoint error fails the session with `DeviceFault`. A
    /// release arms nothing: the next wait is the completion's business.
    pub fn release_buffer(&mut self, frames: u32, released: bool) -> (result: Result<
        (),
        CaptureError,
    >)
        ensures
            (final(self)@, result) == old(self)@.release_buffer(frames, released),
            old(self)@.wf() ==> final(self)@.wf(),
    {
        match self.check_release(frames) {
            Ok(_) => {},
            Err(e) => {
                return Err(e);
            },
        }
        if released {
            self.checkout.release(frames)
        } else {
            self.fail(CaptureError::DeviceFault);
            Err(CaptureError::DeviceFault)
        }
    }

    /// Records that the data-ready signal fired and says what the completion
    /// that runs must do first: arm the next wait, or abstain because the
    /// session does not capture any more.
    pub fn signal_fired(&mut self) -> (action: FireAction)
        ensures
            (final(self)@, action) == old(self)@.signal_fired(),
            old(self)@.wf() ==> final(self)@.wf(),
    {
        self.capture_loop.fire()
    }

    /// Takes the completion's attempt to arm the next wait, `None` if it
    /// failed, and says whether the sample-ready callback is invoked.
    ///
    /// In a running session whose loop awaits the token, the token becomes the
    /// live one and the callback is delivered; a failed attempt fails the
    /// session with `DeviceFault` and delivers nothing. In every other state
    /// nothing changes and nothing is delivered, and the token, if the attempt
    /// made one, is handed back for cancellation.
    pub fn rearmed(&mut self, armed: Option<WaitToken>) -> (delivery: Delivery)
        ensures
            (final(self)@, delivery) == old(self)@.rearmed(armed),
            old(self)@.wf() ==> final(self)@.wf(),
    {
        let awaited = match self.state {
            SessionState::Running => self.capture_loop.can_arm(),
            _ => false,
        };
        if !awaited {
            return Delivery::Discard { cancel: armed };
        }
        match armed {
            Some(token) => {
                let _ = self.capture_loop.arm(token);
                Delivery::Deliver
            },
            None => {
                self.fail(CaptureError::DeviceFault);
                Delivery::Discard { cancel: None }
            },
        }
    }

    /// Stops the session from any state and returns what the driver must
    /// release: the live wait, the running endpoint, the queue lease and the
    /// signal. The session is left in `Stopped`, holding nothing; stopping it
    /// again returns the empty plan.
    pub fn stop(&mut self) -> (plan: StopPlan)
        ensures
            (final(self)@, plan) == old(self)@.stop(),
            final(self)@.state == SessionState::Stopped,
            old(self)@.wf() ==> final(self)@.wf(),
    {
        let plan = StopPlan {
            cancel_wait: self.capture_loop.cancel(),
            stop_endpoint: self.started,
            release_endpoint: self.activated,
            release_queue: self.queue.release(),
            close_signal: self.signal,
        };
        self.state = SessionState::Stopped;
        self.pending = None;
        self.failure = None;
        self.activated = false;
        self.started = false;
        self.signal = None;
        self.checkout.reset();
        plan
    }

    /// Gives the session up and returns what is still to release: the empty
    /// plan after `stop`, otherwise what `stop` would have returned.
    pub fn dispose(self) -> (plan: StopPlan)
        ensures
            plan == self@.stop().1,
    {
        let mut session = self;
        session.stop()
    }
}

} // verus!
