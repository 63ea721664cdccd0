//! The negotiated PCM format of a capture session.

use vstd::prelude::*;
use crate::error::CaptureError;

verus! {

/// Bytes per frame of a PCM stream.
pub open spec fn block_align_of(channel_count: nat, bits_per_sample: nat) -> nat {
    channel_count * bits_per_sample / 8
}

/// Average bytes per second of a PCM stream.
pub open spec fn avg_bytes_per_sec_of(sample_rate: nat, block_align: nat) -> nat {
    sample_rate * block_align
}

/// Whether PCM parameters describe a format that can be negotiated: no silent
/// dimension, and both derived sizes fit their fields.
pub open spec fn negotiable(channel_count: nat, sample_rate: nat, bits_per_sample: nat) -> bool {
    &&& channel_count > 0
    &&& bits_per_sample > 0
    &&& block_align_of(channel_count, bits_per_sample) <= u16::MAX
    &&& avg_bytes_per_sec_of(sample_rate, block_align_of(channel_count, bits_per_sample))
        <= u32::MAX
}

/// The mathematical content of an [`AudioFormat`].
pub struct FormatModel {
    pub channel_count: nat,
    pub sample_rate: nat,
    pub bits_per_sample: nat,
    pub block_align: nat,
    pub avg_bytes_per_sec: nat,
}

impl FormatModel {
    /// The format that the given parameters negotiate to.
    pub open spec fn of(channel_count: nat, sample_rate: nat, bits_per_sample: nat) -> FormatModel {
        FormatModel {
            channel_count,
            sample_rate,
            bits_per_sample,
            block_align: block_align_of(channel_count, bits_per_sample),
            avg_bytes_per_sec: avg_bytes_per_sec_of(
                sample_rate,
                block_align_of(channel_count, bits_per_sample),
            ),
        }
    }

    /// The derived sizes agree with the parameters, which are negotiable.
    pub open spec fn wf(self) -> bool {
        &&& negotiable(self.channel_count, self.sample_rate, self.bits_per_sample)
        &&& self == FormatModel::of(self.channel_count, self.sample_rate, self.bits_per_sample)
    }
}

/// A PCM format, immutable once negotiated.
#[derive(Clone, Copy, Debug)]
pub struct AudioFormat {
    channel_count: u16,
    sample_rate: u32,
    bits_per_sample: u16,
    block_align: u16,
    avg_bytes_per_sec: u32,
}

impl View for AudioFormat {
    type V = FormatModel;

    closed spec fn view(&self) -> FormatModel {
        FormatModel {
            channel_count: self.channel_count as nat,
            sample_rate: self.sample_rate as nat,
            bits_per_sample: self.bits_per_sample as nat,
            block_align: self.block_align as nat,
            avg_bytes_per_sec: self.avg_bytes_per_sec as nat,
        }
    }
}

impl AudioFormat {
    #[verifier::type_invariant]
    spec fn inv(self) -> bool {
        self@.wf()
    }

    /// Negotiates a format from PCM parameters, deriving the frame size and
    /// the byte rate.
    pub fn negotiate(channel_count: u16, sample_rate: u32, bits_per_sample: u16) -> (result: Result<
        AudioFormat,
        CaptureError,
    >)
        ensures
            result is Ok <==> negotiable(
                channel_count as nat,
                sample_rate as nat,
                bits_per_sample as nat,
            ),
            result matches Ok(format) ==> format@ == FormatModel::of(
                channel_count as nat,
                sample_rate as nat,
                bits_per_sample as nat,
            ),
            result matches Err(e) ==> e == CaptureError::FormatNegotiationFailed,
    {
        if channel_count == 0 || bits_per_sample == 0 {
            return Err(CaptureError::FormatNegotiationFailed);
        }
        assert(channel_count * bits_per_sample <= 0xffff * 0xffff) by (nonlinear_arith)
            requires
                channel_count <= 0xffff,
                bits_per_sample <= 0xffff,
        ;
        let frame_bits: u32 = channel_count as u32 * bits_per_sample as u32;
        let block_align: u32 = frame_bits / 8;
        if block_align > 0xffff {
            return Err(CaptureError::FormatNegotiationFailed);
        }
        assert(sample_rate * block_align <= 0xffff_ffff * 0xffff) by (nonlinear_arith)
            requires
                sample_rate <= 0xffff_ffff,
                block_align <= 0xffff,
        ;
        let byte_rate: u64 = sample_rate as u64 * block_align as u64;
        if byte_rate > 0xffff_ffff {
            return Err(CaptureError::FormatNegotiationFailed);
        }
        Ok(
            AudioFormat {
                channel_count,
                sample_rate,
                bits_per_sample,
                block_align: block_align as u16,
                avg_bytes_per_sec: byte_rate as u32,
            },
        )
    }

    /// Number of interleaved channels.
    pub fn channel_count(&self) -> (n: u16)
        ensures
            n == self@.channel_count,
    {
        self.channel_count
    }

    /// Frames per second.
    pub fn sample_rate(&self) -> (n: u32)
        ensures
            n == self@.sample_rate,
    {
        self.sample_rate
    }

    /// Bits in one sample of one channel.
    pub fn bits_per_sample(&self) -> (n: u16)
        ensures
            n == self@.bits_per_sample,
    {
        self.bits_per_sample
    }

    /// Bytes in one frame.
    pub fn block_align(&self) -> (n: u16)
        ensures
            n == self@.block_align,
            n == block_align_of(self@.channel_count, self@.bits_per_sample),
    {
        proof {
            use_type_invariant(self);
        }
        self.block_align
    }

    /// Average bytes per second.
    pub fn avg_bytes_per_sec(&self) -> (n: u32)
        ensures
            n == self@.avg_bytes_per_sec,
            n == avg_bytes_per_sec_of(
                self@.sample_rate,
                block_align_of(self@.channel_count, self@.bits_per_sample),
            ),
    {
        proof {
            use_type_invariant(self);
        }
        self.avg_bytes_per_sec
    }
}

} // verus!
