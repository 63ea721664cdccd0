//! What holds of every capture session, proved over its state machine.

use vstd::prelude::*;
use crate::capture_loop::{FireAction, LoopState, WaitToken};
use crate::checkout::{BufferPacket, EndpointBuffer};
use crate::error::CaptureError;
use crate::format::{avg_bytes_per_sec_of, block_align_of, negotiable, FormatModel};
use crate::model::{failure_of, SessionModel};
use crate::protocol::{
    Delivery,
    SessionEvent,
    SessionState,
    StartAction,
    StartEvent,
    StartStep,
    StopPlan,
};
use crate::queue::DispatchQueueToken;

verus! {

/// How far along its lifecycle a state is.
pub open spec fn lifecycle_rank(state: SessionState) -> nat {
    match state {
        SessionState::Uninitialized => 0,
        SessionState::Activating => 1,
        SessionState::FormatNegotiated => 2,
        SessionState::Running => 3,
        SessionState::Failed => 4,
        SessionState::Stopped => 5,
    }
}

/// Every event keeps a session well-formed.
pub proof fn lemma_step_preserves_wf(s: SessionModel, event: SessionEvent)
    requires
        s.wf(),
    ensures
        s.step(event).wf(),
{
}

/// Every sequence of events keeps a session well-formed.
pub proof fn lemma_run_preserves_wf(s: SessionModel, events: Seq<SessionEvent>)
    requires
        s.wf(),
    ensures
        s.run(events).wf(),
    decreases events.len(),
{
    if events.len() > 0 {
        lemma_run_preserves_wf(s, events.drop_last());
        lemma_step_preserves_wf(s.run(events.drop_last()), events.last());
    }
}

/// A session only moves forward through its lifecycle, and no event changes
/// what it was created with.
pub proof fn lemma_lifecycle_moves_forward(s: SessionModel, event: SessionEvent)
    requires
        s.wf(),
    ensures
        lifecycle_rank(s.state) <= lifecycle_rank(s.step(event).state),
        s.step(event).process_id == s.process_id,
        s.step(event).include_process_tree == s.include_process_tree,
        s.step(event).channel_count == s.channel_count,
        s.step(event).sample_rate == s.sample_rate,
        s.step(event).bits_per_sample == s.bits_per_sample,
{
}

/// Once a format is negotiated it has the requested parameters, a frame of
/// `channel_count * bits_per_sample / 8` bytes and a byte rate of
/// `sample_rate * block_align`; and a session that has reached
/// `FormatNegotiated` or `Running` has a format.
pub proof fn lemma_negotiated_format(s: SessionModel)
    requires
        s.wf(),
    ensures
        s.state == SessionState::FormatNegotiated || s.state == SessionState::Running
            ==> s.format is Some,
        s.format matches Some(format) ==> {
            &&& format.channel_count == s.channel_count
            &&& format.sample_rate == s.sample_rate
            &&& format.bits_per_sample == s.bits_per_sample
            &&& format.channel_count > 0
            &&& format.bits_per_sample > 0
            &&& format.block_align == block_align_of(s.channel_count, s.bits_per_sample)
            &&& format.avg_bytes_per_sec == avg_bytes_per_sec_of(
                s.sample_rate,
                format.block_align,
            )
        },
{
}

/// Whatever events a freshly created session goes through, it stays
/// well-formed and keeps what it was created with; and once it has reached
/// `FormatNegotiated` or `Running`, its format has a frame of
/// `channel_count * bits_per_sample / 8` bytes and a byte rate of
/// `sample_rate * block_align`.
pub proof fn lemma_format_after_negotiation(created: SessionModel, events: Seq<SessionEvent>)
    requires
        created == SessionModel::fresh(
            created.process_id,
            created.include_process_tree,
            created.channel_count,
            created.sample_rate,
            created.bits_per_sample,
        ),
    ensures
        created.run(events).wf(),
        created.run(events).process_id == created.process_id,
        created.run(events).include_process_tree == created.include_process_tree,
        created.run(events).channel_count == created.channel_count,
        created.run(events).sample_rate == created.sample_rate,
        created.run(events).bits_per_sample == created.bits_per_sample,
        created.run(events).state == SessionState::FormatNegotiated || created.run(events).state
            == SessionState::Running ==> {
            &&& created.run(events).format matches Some(format)
            &&& format.block_align == created.channel_count * created.bits_per_sample / 8
            &&& format.avg_bytes_per_sec == created.sample_rate * format.block_align
        },
    decreases events.len(),
{
    if events.len() > 0 {
        lemma_format_after_negotiation(created, events.drop_last());
        lemma_step_preserves_wf(created.run(events.drop_last()), events.last());
        lemma_lifecycle_moves_forward(created.run(events.drop_last()), events.last());
    }
    lemma_negotiated_format(created.run(events));
}

/// A negotiated format never changes, whatever happens to the session.
pub proof fn lemma_format_is_immutable(s: SessionModel, event: SessionEvent)
    requires
        s.wf(),
        s.format is Some,
    ensures
        s.step(event).format == s.format,
{
}

/// While a wait token is live, no other becomes live: the report of a first
/// wait is refused as a protocol violation, and a token that a completion
/// reports is handed back for cancellation. Neither changes the session.
pub proof fn lemma_live_token_blocks_arming(s: SessionModel, token: WaitToken)
    requires
        s.capture_loop.token is Some,
        s.pending == Some(StartStep::ArmWait) || s.pending is None,
    ensures
        s.pending is Some ==> s.advance(StartEvent::WaitArmed { token }) == (
            s,
            Err::<StartAction, CaptureError>(CaptureError::ProtocolViolation),
        ),
        s.rearmed(Some(token)) == (s, Delivery::Discard { cancel: Some(token) }),
{
}

/// A token that is reported to the session is never lost: it becomes the live
/// token, or the session is unchanged and the token is refused or handed back.
pub proof fn lemma_reported_token_is_accounted(s: SessionModel, token: WaitToken)
    ensures
        s.rearmed(Some(token)).1 == Delivery::Deliver ==> s.rearmed(
            Some(token),
        ).0.capture_loop.token == Some(token) && s.capture_loop.token is None,
        s.rearmed(Some(token)).1 != Delivery::Deliver ==> s.rearmed(Some(token)) == (
            s,
            Delivery::Discard { cancel: Some(token) },
        ),
        s.advance(StartEvent::WaitArmed { token }).1 is Ok ==> s.advance(
            StartEvent::WaitArmed { token },
        ).0.capture_loop.token == Some(token) && s.capture_loop.token is None,
        s.advance(StartEvent::WaitArmed { token }).1 is Err ==> s.advance(
            StartEvent::WaitArmed { token },
        ).0 == s,
{
}

/// The callback is delivered only in a running session, and only after the
/// next wait is armed: a delivery leaves the loop armed with the token that
/// the completion reported.
pub proof fn lemma_delivery_follows_rearm(s: SessionModel, armed: Option<WaitToken>)
    requires
        s.rearmed(armed).1 == Delivery::Deliver,
    ensures
        s.state == SessionState::Running,
        s.rearmed(armed).0.state == SessionState::Running,
        armed is Some,
        s.rearmed(armed).0.capture_loop.state == LoopState::Armed,
        s.rearmed(armed).0.capture_loop.token == armed,
{
}

/// While a packet is checked out, the next checkout is refused, whatever the
/// endpoint hands out, and changes nothing. In a running session the refusal
/// is a protocol violation.
pub proof fn lemma_checkout_needs_release(s: SessionModel, fetched: Option<EndpointBuffer>)
    requires
        s.checkout.outstanding is Some,
    ensures
        s.get_buffer(fetched).0 == s,
        s.get_buffer(fetched).1 is Err,
        s.state == SessionState::Running ==> s.get_buffer(fetched).1 == Err::<
            BufferPacket,
            CaptureError,
        >(CaptureError::ProtocolViolation),
{
}

/// Without a packet checked out, a release is refused, whatever the endpoint
/// says, and changes nothing. In a running session the refusal is a protocol
/// violation.
pub proof fn lemma_release_needs_checkout(s: SessionModel, frames: u32, released: bool)
    requires
        s.checkout.outstanding is None,
    ensures
        s.release_buffer(frames, released).0 == s,
        s.release_buffer(frames, released).1 is Err,
        s.state == SessionState::Running ==> s.release_buffer(frames, released).1 == Err::<
            (),
            CaptureError,
        >(CaptureError::ProtocolViolation),
{
}

/// A release that the endpoint accepts arms nothing and delivers nothing: the
/// capture loop is as it was, and so is everything but the packet protocol.
pub proof fn lemma_release_arms_nothing(s: SessionModel, frames: u32)
    ensures
        s.release_buffer(frames, true).0.capture_loop == s.capture_loop,
        s.release_buffer(frames, true).0.state == s.state,
        s.release_buffer(frames, true).0 == (SessionModel {
            checkout: s.release_buffer(frames, true).0.checkout,
            ..s
        }),
{
}

/// The capture loop leaves the packet protocol alone: while the session
/// runs on, neither a fired signal nor an armed wait changes what is ready
/// or what is checked out.
pub proof fn lemma_loop_leaves_packets_alone(s: SessionModel, armed: Option<WaitToken>)
    ensures
        s.signal_fired().0.checkout == s.checkout,
        s.rearmed(armed).0.state == s.state ==> s.rearmed(armed).0.checkout == s.checkout,
{
}

/// In a running session that has seen no frames ready, a checkout is refused
/// as a protocol violation, whatever the endpoint hands out.
pub proof fn lemma_empty_checkout_is_violation(s: SessionModel, fetched: Option<EndpointBuffer>)
    requires
        s.state == SessionState::Running,
        s.checkout.ready_frames == 0,
    ensures
        s.get_buffer(fetched) == (
            s,
            Err::<BufferPacket, CaptureError>(CaptureError::ProtocolViolation),
        ),
{
}

/// Outside `Running` the buffer operations fail at once and change nothing:
/// with the failure that a failed session carries, otherwise with a protocol
/// violation.
pub proof fn lemma_buffer_operations_need_running(
    s: SessionModel,
    reported: Option<u32>,
    fetched: Option<EndpointBuffer>,
    frames: u32,
    released: bool,
)
    requires
        s.state != SessionState::Running,
    ensures
        s.get_next_packet_size(reported) == (s, Err::<u32, CaptureError>(s.rejection())),
        s.get_buffer(fetched) == (s, Err::<BufferPacket, CaptureError>(s.rejection())),
        s.release_buffer(frames, released) == (s, Err::<(), CaptureError>(s.rejection())),
        s.failure is None ==> s.rejection() == CaptureError::ProtocolViolation,
        s.failure matches Some(reason) ==> s.rejection() == reason,
{
}

/// A successful checkout returns the packet at the address that the endpoint
/// handed out, `frames * block_align` bytes long, and leaves it checked out.
pub proof fn lemma_checkout_size(s: SessionModel, buffer: EndpointBuffer)
    requires
        s.wf(),
        s.get_buffer(Some(buffer)).1 is Ok,
    ensures
        s.get_buffer(Some(buffer)).1->Ok_0.data == buffer.data,
        s.get_buffer(Some(buffer)).1->Ok_0.size == buffer.frames * block_align_of(
            s.channel_count,
            s.bits_per_sample,
        ),
        s.get_buffer(Some(buffer)).0.checkout.outstanding == Some(buffer.frames as nat),
{
}

/// Stopping twice is stopping once: the second stop leaves the session as the
/// first left it and finds nothing to release.
pub proof fn lemma_stop_is_idempotent(s: SessionModel)
    ensures
        s.stop().0.state == SessionState::Stopped,
        s.stop().0.stop() == (s.stop().0, StopPlan::nothing()),
{
}

/// `stop` hands out exactly what the session held, each thing once.
pub proof fn lemma_stop_releases_everything(s: SessionModel)
    ensures
        s.stop().1.cancel_wait == s.capture_loop.token,
        s.stop().1.release_queue == s.queue,
        s.stop().1.close_signal == s.signal,
        s.stop().1.stop_endpoint == s.started,
        s.stop().1.release_endpoint == s.activated,
        s.stop().0.capture_loop.token is None,
        s.stop().0.queue is None,
        s.stop().0.signal is None,
        !s.stop().0.started,
        !s.stop().0.activated,
        s.stop().0.checkout.outstanding is None,
{
}

/// After `stop`, nothing moves the session: whatever events follow, it stays
/// as `stop` left it, no callback is delivered and no completion is asked to
/// arm a wait.
pub proof fn lemma_nothing_after_stop(
    s: SessionModel,
    events: Seq<SessionEvent>,
    next: SessionEvent,
)
    ensures
        s.stop().0.run(events) == s.stop().0,
        !s.stop().0.run(events).delivers(next),
        !s.stop().0.run(events).asks_rearm(next),
    decreases events.len(),
{
    if events.len() > 0 {
        lemma_nothing_after_stop(s, events.drop_last(), events.last());
    }
}

/// Whether a session is down for good: stopped or failed, with no start work
/// pending and its loop halted.
pub open spec fn is_down(s: SessionModel) -> bool {
    &&& s.state == SessionState::Stopped || s.state == SessionState::Failed
    &&& s.pending is None
    &&& s.capture_loop.state == LoopState::Stopped
}

/// No event brings a session that is down back up.
pub proof fn lemma_down_is_absorbing(s: SessionModel, event: SessionEvent)
    requires
        is_down(s),
    ensures
        is_down(s.step(event)),
        !s.delivers(event),
        !s.asks_rearm(event),
{
}

/// A session that is down stays down: no event brings it back to `Running`,
/// has the callback delivered or has a wait armed.
pub proof fn lemma_down_stays_down(s: SessionModel, events: Seq<SessionEvent>, next: SessionEvent)
    requires
        is_down(s),
    ensures
        is_down(s.run(events)),
        !s.run(events).delivers(next),
        !s.run(events).asks_rearm(next),
    decreases events.len(),
{
    if events.len() > 0 {
        lemma_down_stays_down(s, events.drop_last(), events.last());
        lemma_down_is_absorbing(s.run(events.drop_last()), events.last());
    }
    lemma_down_is_absorbing(s.run(events), next);
}

/// A device fault in a running session is surfaced at once and on every
/// buffer operation that follows, and ends the loop: the session is failed
/// with `DeviceFault`, and a signal that fires later makes the completion
/// abstain.
pub proof fn lemma_device_fault_is_surfaced(
    s: SessionModel,
    reported: Option<u32>,
    fetched: Option<EndpointBuffer>,
    frames: u32,
    released: bool,
)
    requires
        s.state == SessionState::Running,
    ensures
        ({
            let t = s.fail(CaptureError::DeviceFault);
            &&& is_down(t)
            &&& t.state == SessionState::Failed
            &&& t.get_next_packet_size(reported) == (
                t,
                Err::<u32, CaptureError>(CaptureError::DeviceFault),
            )
            &&& t.get_buffer(fetched) == (
                t,
                Err::<BufferPacket, CaptureError>(CaptureError::DeviceFault),
            )
            &&& t.release_buffer(frames, released) == (
                t,
                Err::<(), CaptureError>(CaptureError::DeviceFault),
            )
            &&& t.signal_fired().1 == FireAction::Abstain
        }),
        s.get_next_packet_size(None) == (
            s.fail(CaptureError::DeviceFault),
            Err::<u32, CaptureError>(CaptureError::DeviceFault),
        ),
        s.checkout_refusal() is None ==> s.get_buffer(None) == (
            s.fail(CaptureError::DeviceFault),
            Err::<BufferPacket, CaptureError>(CaptureError::DeviceFault),
        ),
        s.release_refusal(frames) is None ==> s.release_buffer(frames, false) == (
            s.fail(CaptureError::DeviceFault),
            Err::<(), CaptureError>(CaptureError::DeviceFault),
        ),
        s.capture_loop.can_arm() ==> s.rearmed(None) == (
            s.fail(CaptureError::DeviceFault),
            Delivery::Discard { cancel: None },
        ),
{
}

/// A failure while starting moves the session to `Failed` with the error of
/// the work that failed, and `start` does not begin again.
pub proof fn lemma_start_failure(s: SessionModel, step: StartStep)
    requires
        s.pending == Some(step),
    ensures
        s.advance(StartEvent::Failed).1 == Err::<StartAction, CaptureError>(
            failure_of(step),
        ),
        s.advance(StartEvent::Failed).0.state == SessionState::Failed,
        s.advance(StartEvent::Failed).0.failure == Some(failure_of(step)),
        is_down(s.advance(StartEvent::Failed).0),
        s.advance(StartEvent::Failed).0.start() == (
            s.advance(StartEvent::Failed).0,
            Err::<StartAction, CaptureError>(failure_of(step)),
        ),
{
}

/// Over any sequence of events, at most one wait token is live: the tokens
/// armed exceed the tokens fired or cancelled by the number that is live at
/// the end, which is zero or one.
pub proof fn lemma_session_keeps_one_token(s: SessionModel, events: Seq<SessionEvent>)
    ensures
        s.capture_loop.live() + s.armed_count(events) == s.retired_count(events) + s.run(
            events,
        ).capture_loop.live(),
        s.run(events).capture_loop.live() <= 1,
    decreases events.len(),
{
    if events.len() > 0 {
        lemma_session_keeps_one_token(s, events.drop_last());
    }
}

/// Over any sequence of events, every packet checked out is accounted for:
/// it was released, or taken away by a failure or a stop, or it is the one
/// still held.
pub proof fn lemma_session_packets_balance(s: SessionModel, events: Seq<SessionEvent>)
    ensures
        s.checkout.held() + s.checkout_count(events) == s.release_count(events)
            + s.abandoned_count(events) + s.run(events).checkout.held(),
        s.run(events).checkout.held() <= 1,
    decreases events.len(),
{
    if events.len() > 0 {
        lemma_session_packets_balance(s, events.drop_last());
    }
}

/// A session from which a packet was taken away without a release is down
/// for good.
pub proof fn lemma_abandon_is_final(s: SessionModel, events: Seq<SessionEvent>)
    requires
        s.abandoned_count(events) > 0,
    ensures
        is_down(s.run(events)),
    decreases events.len(),
{
    if events.len() > 0 {
        let before = s.run(events.drop_last());
        if s.abandoned_count(events.drop_last()) > 0 {
            lemma_abandon_is_final(s, events.drop_last());
            lemma_down_is_absorbing(before, events.last());
        } else {
            assert(before.abandons(events.last()));
        }
    }
}

/// Every successful checkout is followed by exactly one release before the
/// next checkout succeeds: if a packet is checked out and, some events later,
/// a checkout succeeds again, the releases in between are one more than the
/// checkouts in between.
pub proof fn lemma_one_release_between_checkouts(
    s: SessionModel,
    events: Seq<SessionEvent>,
    fetched: Option<EndpointBuffer>,
)
    requires
        s.checkout.outstanding is Some,
        s.run(events).get_buffer(fetched).1 is Ok,
    ensures
        s.release_count(events) == s.checkout_count(events) + 1,
        s.abandoned_count(events) == 0,
{
    lemma_session_packets_balance(s, events);
    if s.abandoned_count(events) > 0 {
        lemma_abandon_is_final(s, events);
    }
}

/// The handshake of `start`: from a fresh session whose parameters admit a
/// format, the six pieces of work, each succeeding in its turn, lead to
/// `Running` with the format negotiated, the signal bound, the queue leased,
/// the endpoint started and the first wait armed.
pub proof fn lemma_handshake_reaches_running(
    s: SessionModel,
    signal: isize,
    queue: DispatchQueueToken,
    token: WaitToken,
)
    requires
        s == SessionModel::fresh(
            s.process_id,
            s.include_process_tree,
            s.channel_count,
            s.sample_rate,
            s.bits_per_sample,
        ),
        negotiable(s.channel_count, s.sample_rate, s.bits_per_sample),
    ensures
        ({
            let (s1, a1) = s.start();
            let (s2, a2) = s1.advance(StartEvent::Activated);
            let (s3, a3) = s2.advance(StartEvent::FormatAccepted { signal });
            let (s4, a4) = s3.advance(StartEvent::QueueAcquired { queue });
            let (s5, a5) = s4.advance(StartEvent::QueueReady);
            let (s6, a6) = s5.advance(StartEvent::EndpointStarted);
            let (s7, a7) = s6.advance(StartEvent::WaitArmed { token });
            &&& a1 == Ok::<StartAction, CaptureError>(
                StartAction::Activate { process_id: s.process_id, mode: s.mode() },
            )
            &&& a2 == Ok::<StartAction, CaptureError>(StartAction::NegotiateFormat)
            &&& a3 == Ok::<StartAction, CaptureError>(StartAction::AcquireQueue)
            &&& a4 == Ok::<StartAction, CaptureError>(StartAction::AwaitQueueReady { queue })
            &&& a5 == Ok::<StartAction, CaptureError>(StartAction::StartEndpoint)
            &&& a6 == Ok::<StartAction, CaptureError>(StartAction::ArmWait { signal })
            &&& a7 == Ok::<StartAction, CaptureError>(StartAction::Finished)
            &&& s1.state == SessionState::Activating
            &&& s2.state == SessionState::Activating
            &&& s3.state == SessionState::FormatNegotiated
            &&& s6.state == SessionState::FormatNegotiated
            &&& s7.state == SessionState::Running
            &&& s7.format == Some(
                FormatModel::of(s.channel_count, s.sample_rate, s.bits_per_sample),
            )
            &&& s7.signal == Some(signal)
            &&& s7.queue == Some(queue)
            &&& s7.started
            &&& s7.capture_loop.token == Some(token)
            &&& s7.capture_loop.state == LoopState::Armed
            &&& s7.wf()
        }),
{
}

/// A running session holds everything that the handshake acquires.
pub proof fn lemma_running_holds_everything(s: SessionModel)
    requires
        s.wf(),
        s.state == SessionState::Running,
    ensures
        s.format is Some,
        s.signal is Some,
        s.queue is Some,
        s.activated,
        s.started,
        s.failure is None,
        s.pending is None,
        s.capture_loop.state == LoopState::Armed || s.capture_loop.state == LoopState::Firing,
        s.capture_loop.state == LoopState::Armed <==> s.capture_loop.token is Some,
{
}

} // verus!
