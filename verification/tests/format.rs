use wpal::error::CaptureError;
use wpal::format::AudioFormat;

#[test]
fn cd_quality_stereo_format() {
    let format = AudioFormat::negotiate(2, 44100, 16).unwrap();
    assert_eq!(format.channel_count(), 2);
    assert_eq!(format.sample_rate(), 44100);
    assert_eq!(format.bits_per_sample(), 16);
    assert_eq!(format.block_align(), 4);
    assert_eq!(format.avg_bytes_per_sec(), 176400);
}

#[test]
fn mono_eight_bit_format() {
    let format = AudioFormat::negotiate(1, 8000, 8).unwrap();
    assert_eq!(format.block_align(), 1);
    assert_eq!(format.avg_bytes_per_sec(), 8000);
}

#[test]
fn surround_float_width_format() {
    let format = AudioFormat::negotiate(6, 48000, 32).unwrap();
    assert_eq!(format.block_align(), 24);
    assert_eq!(format.avg_bytes_per_sec(), 1_152_000);
}

#[test]
fn block_align_rounds_down() {
    let format = AudioFormat::negotiate(1, 1000, 12).unwrap();
    assert_eq!(format.block_align(), 1);
    assert_eq!(format.avg_bytes_per_sec(), 1000);
    let narrow = AudioFormat::negotiate(1, 1000, 4).unwrap();
    assert_eq!(narrow.block_align(), 0);
    assert_eq!(narrow.avg_bytes_per_sec(), 0);
}

#[test]
fn block_align_holds_for_a_grid_of_parameters() {
    for channels in 1u16..=8 {
        for bits in [8u16, 16, 24, 32] {
            for rate in [8000u32, 44100, 48000, 96000] {
                let format = AudioFormat::negotiate(channels, rate, bits).unwrap();
                assert_eq!(format.block_align() as u32, channels as u32 * bits as u32 / 8);
                assert_eq!(format.avg_bytes_per_sec(), rate * format.block_align() as u32);
            }
        }
    }
}

#[test]
fn zero_channels_are_rejected() {
    assert_eq!(
        AudioFormat::negotiate(0, 44100, 16).err(),
        Some(CaptureError::FormatNegotiationFailed)
    );
}

#[test]
fn zero_bits_are_rejected() {
    assert_eq!(
        AudioFormat::negotiate(2, 44100, 0).err(),
        Some(CaptureError::FormatNegotiationFailed)
    );
}

#[test]
fn zero_sample_rate_is_accepted() {
    let format = AudioFormat::negotiate(2, 0, 16).unwrap();
    assert_eq!(format.block_align(), 4);
    assert_eq!(format.avg_bytes_per_sec(), 0);
}

#[test]
fn frame_too_large_is_rejected() {
    // 65535 * 65535 / 8 does not fit 16 bits.
    assert_eq!(
        AudioFormat::negotiate(65535, 1, 65535).err(),
        Some(CaptureError::FormatNegotiationFailed)
    );
    // 32768 channels of 16 bits are 65536 bytes per frame.
    assert_eq!(
        AudioFormat::negotiate(32768, 1, 16).err(),
        Some(CaptureError::FormatNegotiationFailed)
    );
}

#[test]
fn largest_frame_is_accepted() {
    // 65535 channels of 8 bits are 65535 bytes per frame.
    let format = AudioFormat::negotiate(65535, 1, 8).unwrap();
    assert_eq!(format.block_align(), 65535);
    assert_eq!(format.avg_bytes_per_sec(), 65535);
}

#[test]
fn byte_rate_too_large_is_rejected() {
    assert_eq!(
        AudioFormat::negotiate(2, u32::MAX, 16).err(),
        Some(CaptureError::FormatNegotiationFailed)
    );
    // 1073741824 * 4 is 2^32.
    assert_eq!(
        AudioFormat::negotiate(2, 1 << 30, 16).err(),
        Some(CaptureError::FormatNegotiationFailed)
    );
}

#[test]
fn largest_byte_rate_is_accepted() {
    let format = AudioFormat::negotiate(1, u32::MAX, 8).unwrap();
    assert_eq!(format.avg_bytes_per_sec(), u32::MAX);
    let format = AudioFormat::negotiate(2, (1 << 30) - 1, 16).unwrap();
    assert_eq!(format.avg_bytes_per_sec(), u32::MAX - 3);
}
