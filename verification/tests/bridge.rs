use wpal::bridge::{BridgePoll, CompletionBridge};

#[test]
fn fresh_bridge_is_not_completed() {
    let bridge: CompletionBridge<u32> = CompletionBridge::new();
    assert!(!bridge.is_completed());
}

#[test]
fn poll_before_completion_is_pending_and_completion_wakes_it() {
    let mut bridge = CompletionBridge::new();
    assert_eq!(bridge.poll(7u32), BridgePoll::Pending);
    assert!(!bridge.is_completed());
    assert_eq!(bridge.complete(), Some(7));
    assert!(bridge.is_completed());
    assert_eq!(bridge.poll(8), BridgePoll::Ready);
}

#[test]
fn completion_before_poll_is_seen_by_the_next_poll() {
    let mut bridge = CompletionBridge::new();
    assert_eq!(bridge.complete(), None);
    assert!(bridge.is_completed());
    assert_eq!(bridge.poll(1u32), BridgePoll::Ready);
    assert_eq!(bridge.poll(2u32), BridgePoll::Ready);
}

#[test]
fn later_poll_replaces_the_recorded_handle() {
    let mut bridge = CompletionBridge::new();
    assert_eq!(bridge.poll("first"), BridgePoll::Pending);
    assert_eq!(bridge.poll("second"), BridgePoll::Pending);
    assert_eq!(bridge.complete(), Some("second"));
}

#[test]
fn second_completion_is_ignored() {
    let mut bridge = CompletionBridge::new();
    assert_eq!(bridge.poll(5u8), BridgePoll::Pending);
    assert_eq!(bridge.complete(), Some(5));
    assert_eq!(bridge.complete(), None);
    assert!(bridge.is_completed());
    assert_eq!(bridge.poll(6), BridgePoll::Ready);
    assert_eq!(bridge.complete(), None);
}

#[test]
fn bridge_carries_handles_that_cannot_be_copied() {
    let mut bridge = CompletionBridge::new();
    assert_eq!(bridge.poll(String::from("task")), BridgePoll::Pending);
    assert_eq!(bridge.complete(), Some(String::from("task")));
}
