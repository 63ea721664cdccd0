use wpal::checkout::{BufferCheckout, BufferPacket, EndpointBuffer};
use wpal::error::CaptureError;

#[test]
fn fresh_checkout_has_nothing_ready_and_nothing_held() {
    let checkout = BufferCheckout::new();
    assert_eq!(checkout.next_packet_size(), 0);
    assert_eq!(checkout.outstanding(), None);
    assert!(!checkout.can_checkout());
    assert!(!checkout.can_release(0));
}

#[test]
fn checkout_without_frames_is_a_violation() {
    let mut checkout = BufferCheckout::new();
    let result = checkout.checkout(EndpointBuffer { data: 0x1000, frames: 10 }, 4);
    assert_eq!(result, Err(CaptureError::ProtocolViolation));
    assert_eq!(checkout.outstanding(), None);
    checkout.observe(0);
    let result = checkout.checkout(EndpointBuffer { data: 0x1000, frames: 10 }, 4);
    assert_eq!(result, Err(CaptureError::ProtocolViolation));
}

#[test]
fn checkout_computes_the_packet_size_in_bytes() {
    let mut checkout = BufferCheckout::new();
    checkout.observe(441);
    assert_eq!(checkout.next_packet_size(), 441);
    let packet = checkout.checkout(EndpointBuffer { data: 0x2000, frames: 441 }, 4).unwrap();
    assert_eq!(packet, BufferPacket { data: 0x2000, size: 1764 });
    assert_eq!(checkout.outstanding(), Some(441));
    assert_eq!(checkout.next_packet_size(), 0);
}

#[test]
fn double_checkout_is_a_violation() {
    let mut checkout = BufferCheckout::new();
    checkout.observe(100);
    checkout.checkout(EndpointBuffer { data: 1, frames: 100 }, 2).unwrap();
    checkout.observe(100);
    let second = checkout.checkout(EndpointBuffer { data: 2, frames: 100 }, 2);
    assert_eq!(second, Err(CaptureError::ProtocolViolation));
    assert_eq!(checkout.outstanding(), Some(100));
    assert_eq!(checkout.next_packet_size(), 100);
}

#[test]
fn release_without_checkout_is_a_violation() {
    let mut checkout = BufferCheckout::new();
    assert_eq!(checkout.release(0), Err(CaptureError::ProtocolViolation));
    checkout.observe(10);
    assert_eq!(checkout.release(10), Err(CaptureError::ProtocolViolation));
    assert_eq!(checkout.next_packet_size(), 10);
}

#[test]
fn release_twice_is_a_violation() {
    let mut checkout = BufferCheckout::new();
    checkout.observe(10);
    checkout.checkout(EndpointBuffer { data: 1, frames: 10 }, 2).unwrap();
    assert_eq!(checkout.release(10), Ok(()));
    assert_eq!(checkout.release(10), Err(CaptureError::ProtocolViolation));
}

#[test]
fn release_of_more_frames_than_held_is_a_violation() {
    let mut checkout = BufferCheckout::new();
    checkout.observe(10);
    checkout.checkout(EndpointBuffer { data: 1, frames: 10 }, 2).unwrap();
    assert!(!checkout.can_release(11));
    assert_eq!(checkout.release(11), Err(CaptureError::ProtocolViolation));
    assert_eq!(checkout.outstanding(), Some(10));
    assert!(checkout.can_release(10));
    assert_eq!(checkout.release(10), Ok(()));
}

#[test]
fn release_of_fewer_frames_is_accepted() {
    let mut checkout = BufferCheckout::new();
    checkout.observe(10);
    checkout.checkout(EndpointBuffer { data: 1, frames: 10 }, 2).unwrap();
    assert_eq!(checkout.release(3), Ok(()));
    assert_eq!(checkout.outstanding(), None);
}

#[test]
fn checkout_release_cycle_repeats() {
    let mut checkout = BufferCheckout::new();
    for round in 1u32..=5 {
        checkout.observe(round);
        let packet = checkout
            .checkout(EndpointBuffer { data: round as usize, frames: round }, 8)
            .unwrap();
        assert_eq!(packet.size, round * 8);
        assert_eq!(packet.data, round as usize);
        assert_eq!(checkout.release(round), Ok(()));
        assert_eq!(checkout.outstanding(), None);
    }
}

#[test]
fn oversized_packet_is_a_device_fault() {
    let mut checkout = BufferCheckout::new();
    checkout.observe(1);
    let result = checkout.checkout(EndpointBuffer { data: 1, frames: u32::MAX }, 2);
    assert_eq!(result, Err(CaptureError::DeviceFault));
    assert_eq!(checkout.outstanding(), None);
    assert_eq!(checkout.next_packet_size(), 1);
    // The largest size that fits is accepted.
    let packet = checkout.checkout(EndpointBuffer { data: 1, frames: u32::MAX }, 1).unwrap();
    assert_eq!(packet.size, u32::MAX);
}

#[test]
fn empty_packet_can_be_checked_out_and_released() {
    let mut checkout = BufferCheckout::new();
    checkout.observe(5);
    let packet = checkout.checkout(EndpointBuffer { data: 9, frames: 0 }, 4).unwrap();
    assert_eq!(packet.size, 0);
    assert_eq!(checkout.outstanding(), Some(0));
    assert_eq!(checkout.release(0), Ok(()));
}

#[test]
fn reset_forgets_everything() {
    let mut checkout = BufferCheckout::new();
    checkout.observe(10);
    checkout.checkout(EndpointBuffer { data: 1, frames: 10 }, 2).unwrap();
    checkout.observe(7);
    checkout.reset();
    assert_eq!(checkout.next_packet_size(), 0);
    assert_eq!(checkout.outstanding(), None);
}
