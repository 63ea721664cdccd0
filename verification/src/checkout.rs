//! The checkout and release discipline for endpoint-owned packet buffers.
//!
//! The endpoint lends one packet at a time. A packet may be checked out only
//! after the endpoint reported frames to read and while no other packet is
//! held, and every packet checked out is released once before the next.

use vstd::prelude::*;
use crate::error::CaptureError;

verus! {

/// A borrowed view of one packet: where its bytes start and how many there
/// are. It is valid from the checkout that produced it until the matching
/// release.
#[derive(Clone, Copy, Debug, PartialEq, Eq, Structural)]
pub struct BufferPacket {
    /// Address of the first byte, in memory owned by the endpoint.
    pub data: usize,
    /// Number of bytes in the packet.
    pub size: u32,
}

/// What the endpoint hands out on a checkout: the packet's address and its
/// length in frames.
#[derive(Clone, Copy, Debug, PartialEq, Eq, Structural)]
pub struct EndpointBuffer {
    /// Address of the first byte.
    pub data: usize,
    /// Number of frames in the packet.
    pub frames: u32,
}

/// Number of bytes in a packet of `frames` frames.
pub open spec fn packet_bytes(frames: nat, block_align: nat) -> nat {
    frames * block_align
}

/// The mathematical content of a [`BufferCheckout`].
pub struct CheckoutModel {
    /// Frames that the endpoint last reported as ready and that no checkout
    /// has taken since.
    pub ready_frames: nat,
    /// Length in frames of the packet that is checked out, if one is.
    pub outstanding: Option<nat>,
}

/// One call on the checkout interface.
pub enum CheckoutOp {
    /// The endpoint reported `frames` frames as ready.
    Observe { frames: nat },
    /// A checkout for which the endpoint hands out `frames` frames.
    Checkout { frames: nat, block_align: nat },
    /// A release of `frames` frames.
    Release { frames: nat },
}

impl CheckoutModel {
    /// Nothing reported, nothing held.
    pub open spec fn fresh() -> CheckoutModel {
        CheckoutModel { ready_frames: 0, outstanding: None }
    }

    /// Number of packets held: zero or one.
    pub open spec fn held(self) -> nat {
        if self.outstanding is Some {
            1
        } else {
            0
        }
    }

    /// The interface after the endpoint reported `frames` frames as ready.
    pub open spec fn observe(self, frames: nat) -> CheckoutModel {
        CheckoutModel { ready_frames: frames, outstanding: self.outstanding }
    }

    /// Whether a checkout is in order: frames were reported and no packet is
    /// held.
    pub open spec fn can_checkout(self) -> bool {
        self.ready_frames > 0 && self.outstanding is None
    }

    /// The interface after a checkout attempt for which the endpoint hands out
    /// `frames` frames, and the packet's size in bytes or the refusal.
    pub open spec fn checkout(self, frames: nat, block_align: nat) -> (
        CheckoutModel,
        Result<nat, CaptureError>,
    ) {
        if !self.can_checkout() {
            (self, Err(CaptureError::ProtocolViolation))
        } else if packet_bytes(frames, block_align) > u32::MAX {
            (self, Err(CaptureError::DeviceFault))
        } else {
            (
                CheckoutModel { ready_frames: 0, outstanding: Some(frames) },
                Ok(packet_bytes(frames, block_align)),
            )
        }
    }

    /// Whether a release of `frames` frames is in order: a packet is held and
    /// it has at least that many frames.
    pub open spec fn can_release(self, frames: nat) -> bool {
        self.outstanding matches Some(held) && frames <= held
    }

    /// The interface after an attempt to release `frames` frames, and whether
    /// it was accepted.
    pub open spec fn release(self, frames: nat) -> (CheckoutModel, Result<(), CaptureError>) {
        if self.can_release(frames) {
            (CheckoutModel { ready_frames: self.ready_frames, outstanding: None }, Ok(()))
        } else {
            (self, Err(CaptureError::ProtocolViolation))
        }
    }

    /// The interface after one call.
    pub open spec fn step(self, op: CheckoutOp) -> CheckoutModel {
        match op {
            CheckoutOp::Observe { frames } => self.observe(frames),
            CheckoutOp::Checkout { frames, block_align } => self.checkout(frames, block_align).0,
            CheckoutOp::Release { frames } => self.release(frames).0,
        }
    }

    /// Whether `op` is a checkout that succeeds here.
    pub open spec fn checks_out(self, op: CheckoutOp) -> bool {
        op matches CheckoutOp::Checkout { frames, block_align } && self.checkout(
            frames,
            block_align,
        ).1 is Ok
    }

    /// Whether `op` is a release that succeeds here.
    pub open spec fn releases(self, op: CheckoutOp) -> bool {
        op matches CheckoutOp::Release { frames } && self.release(frames).1 is Ok
    }

    /// The interface after a sequence of calls.
    pub open spec fn run(self, ops: Seq<CheckoutOp>) -> CheckoutModel
        decreases ops.len(),
    {
        if ops.len() == 0 {
            self
        } else {
            self.run(ops.drop_last()).step(ops.last())
        }
    }

    /// Number of checkouts that succeed in a sequence of calls.
    pub open spec fn checkout_count(self, ops: Seq<CheckoutOp>) -> nat
        decreases ops.len(),
    {
        if ops.len() == 0 {
            0
        } else {
            self.checkout_count(ops.drop_last()) + if self.run(ops.drop_last()).checks_out(
                ops.last(),
            ) {
                1nat
            } else {
                0nat
            }
        }
    }

    /// Number of releases that succeed in a sequence of calls.
    pub open spec fn release_count(self, ops: Seq<CheckoutOp>) -> nat
        decreases ops.len(),
    {
        if ops.len() == 0 {
            0
        } else {
            self.release_count(ops.drop_last()) + if self.run(ops.drop_last()).releases(
                ops.last(),
            ) {
                1nat
            } else {
                0nat
            }
        }
    }
}

/// Tracks the checkout protocol of one capture endpoint.
#[derive(Debug)]
pub struct BufferCheckout {
    ready_frames: u32,
    outstanding: Option<u32>,
}

impl View for BufferCheckout {
    type V = CheckoutModel;

    closed spec fn view(&self) -> CheckoutModel {
        CheckoutModel {
            ready_frames: self.ready_frames as nat,
            outstanding: match self.outstanding {
                Some(frames) => Some(frames as nat),
                None => None,
            },
        }
    }
}

impl BufferCheckout {
    /// Creates the tracker of an endpoint that has reported nothing yet.
    pub fn new() -> (checkout: BufferCheckout)
        ensures
            checkout@ == CheckoutModel::fresh(),
    {
        BufferCheckout { ready_frames: 0, outstanding: None }
    }

    /// Frames last reported as ready and not yet taken by a checkout.
    pub fn next_packet_size(&self) -> (frames: u32)
        ensures
            frames == self@.ready_frames,
    {
        self.ready_frames
    }

    /// Length in frames of the packet that is checked out, if one is.
    pub fn outstanding(&self) -> (held: Option<u32>)
        ensures
            match held {
                Some(frames) => self@.outstanding == Some(frames as nat),
                None => self@.outstanding is None,
            },
    {
        self.outstanding
    }

    /// Records that the endpoint reported `frames` frames as ready.
    pub fn observe(&mut self, frames: u32)
        ensures
            final(self)@ == old(self)@.observe(frames as nat),
    {
        self.ready_frames = frames;
    }

    /// Whether a checkout is in order.
    pub fn can_checkout(&self) -> (allowed: bool)
        ensures
            allowed == self@.can_checkout(),
    {
        self.ready_frames > 0 && self.outstanding.is_none()
    }

    /// Checks out the packet that the endpoint handed out.
    ///
    /// Refused with `ProtocolViolation` when no frames were reported or a
    /// packet is still held, and with `DeviceFault` when the packet's size in
    /// bytes does not fit 32 bits.
    pub fn checkout(&mut self, buffer: EndpointBuffer, block_align: u16) -> (result: Result<
        BufferPacket,
        CaptureError,
    >)
        ensures
            final(self)@ == old(self)@.checkout(buffer.frames as nat, block_align as nat).0,
            match result {
                Ok(packet) => old(self)@.checkout(buffer.frames as nat, block_align as nat).1
                    == Ok::<nat, CaptureError>(packet.size as nat) && packet.data == buffer.data,
                Err(e) => old(self)@.checkout(buffer.frames as nat, block_align as nat).1 == Err::<
                    nat,
                    CaptureError,
                >(e),
            },
    {
        if !self.can_checkout() {
            return Err(CaptureError::ProtocolViolation);
        }
        assert(buffer.frames * block_align <= 0xffff_ffff * 0xffff) by (nonlinear_arith)
            requires
                buffer.frames <= 0xffff_ffff,
                block_align <= 0xffff,
        ;
        let bytes: u64 = buffer.frames as u64 * block_align as u64;
        if bytes > 0xffff_ffff {
            return Err(CaptureError::DeviceFault);
        }
        self.ready_frames = 0;
        self.outstanding = Some(buffer.frames);
        Ok(BufferPacket { data: buffer.data, size: bytes as u32 })
    }

    /// Whether a release of `frames` frames is in order.
    pub fn can_release(&self, frames: u32) -> (allowed: bool)
        ensures
            allowed == self@.can_release(frames as nat),
    {
        match self.outstanding {
            Some(held) => frames <= held,
            None => false,
        }
    }

    /// Releases the packet that is checked out, of which `frames` frames were
    /// consumed. Refused with `ProtocolViolation` when no packet is held or it
    /// has fewer frames.
    pub fn release(&mut self, frames: u32) -> (result: Result<(), CaptureError>)
        ensures
            (final(self)@, result) == old(self)@.release(frames as nat),
    {
        if self.can_release(frames) {
            self.outstanding = None;
            Ok(())
        } else {
            Err(CaptureError::ProtocolViolation)
        }
    }

    /// Forgets what was reported and what was held.
    pub fn reset(&mut self)
        ensures
            final(self)@ == CheckoutModel::fresh(),
    {
        self.ready_frames = 0;
        self.outstanding = None;
    }
}

/// While a packet is held, every checkout is refused as a protocol violation
/// and changes nothing, whatever the endpoint reported in between.
pub proof fn lemma_double_checkout_refused(s: CheckoutModel, frames: nat, block_align: nat)
    requires
        s.outstanding is Some,
    ensures
        s.checkout(frames, block_align) == (
            s,
            Err::<nat, CaptureError>(CaptureError::ProtocolViolation),
        ),
{
}

/// With no packet held, every release is refused as a protocol violation and
/// changes nothing.
pub proof fn lemma_release_without_checkout_refused(s: CheckoutModel, frames: nat)
    requires
        s.outstanding is None,
    ensures
        s.release(frames) == (s, Err::<(), CaptureError>(CaptureError::ProtocolViolation)),
{
}

/// With no frames reported, every checkout is refused as a protocol violation.
pub proof fn lemma_empty_checkout_refused(s: CheckoutModel, frames: nat, block_align: nat)
    requires
        s.ready_frames == 0,
    ensures
        s.checkout(frames, block_align) == (
            s,
            Err::<nat, CaptureError>(CaptureError::ProtocolViolation),
        ),
{
}

/// A successful checkout leaves a packet held, and the release of that packet
/// with its full length, or with fewer frames, is accepted and leaves none.
pub proof fn lemma_checkout_then_release(
    s: CheckoutModel,
    frames: nat,
    block_align: nat,
    consumed: nat,
)
    requires
        s.checkout(frames, block_align).1 is Ok,
        consumed <= frames,
    ensures
        s.checkout(frames, block_align).0.outstanding == Some(frames),
        s.checkout(frames, block_align).0.release(consumed).1 is Ok,
        s.checkout(frames, block_align).0.release(consumed).0.outstanding is None,
{
}

/// Over any sequence of calls, successful checkouts and successful releases
/// alternate: the checkouts exceed the releases by the number of packets held
/// at the end, which is zero or one.
pub proof fn lemma_checkouts_and_releases_alternate(s: CheckoutModel, ops: Seq<CheckoutOp>)
    ensures
        s.held() + s.checkout_count(ops) == s.release_count(ops) + s.run(ops).held(),
        s.run(ops).held() <= 1,
    decreases ops.len(),
{
    if ops.len() > 0 {
        lemma_checkouts_and_releases_alternate(s, ops.drop_last());
    }
}

} // verus!
