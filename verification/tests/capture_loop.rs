use wpal::capture_loop::{CaptureLoopController, FireAction, LoopState, WaitToken};
use wpal::error::CaptureError;
use wpal::queue::{DispatchQueueToken, QueueLease};

#[test]
fn fresh_loop_is_idle() {
    let controller = CaptureLoopController::new();
    assert_eq!(controller.state(), LoopState::Idle);
    assert_eq!(controller.token(), None);
    assert!(controller.can_arm());
}

#[test]
fn arm_fire_rearm_cycle() {
    let mut controller = CaptureLoopController::new();
    assert_eq!(controller.arm(WaitToken { key: 11 }), Ok(()));
    assert_eq!(controller.state(), LoopState::Armed);
    assert_eq!(controller.token(), Some(WaitToken { key: 11 }));
    assert_eq!(controller.fire(), FireAction::Rearm);
    assert_eq!(controller.state(), LoopState::Firing);
    assert_eq!(controller.token(), None);
    assert_eq!(controller.arm(WaitToken { key: 12 }), Ok(()));
    assert_eq!(controller.state(), LoopState::Armed);
    assert_eq!(controller.token(), Some(WaitToken { key: 12 }));
}

#[test]
fn second_token_is_a_violation() {
    let mut controller = CaptureLoopController::new();
    assert_eq!(controller.arm(WaitToken { key: 1 }), Ok(()));
    assert!(!controller.can_arm());
    assert_eq!(controller.arm(WaitToken { key: 2 }), Err(CaptureError::ProtocolViolation));
    assert_eq!(controller.token(), Some(WaitToken { key: 1 }));
    assert_eq!(controller.state(), LoopState::Armed);
}

#[test]
fn fire_without_token_abstains() {
    let mut controller = CaptureLoopController::new();
    assert_eq!(controller.fire(), FireAction::Abstain);
    assert_eq!(controller.state(), LoopState::Idle);
    controller.arm(WaitToken { key: 1 }).unwrap();
    assert_eq!(controller.fire(), FireAction::Rearm);
    assert_eq!(controller.fire(), FireAction::Abstain);
    assert_eq!(controller.state(), LoopState::Firing);
}

#[test]
fn cancel_returns_the_live_token_once() {
    let mut controller = CaptureLoopController::new();
    controller.arm(WaitToken { key: 99 }).unwrap();
    assert_eq!(controller.cancel(), Some(WaitToken { key: 99 }));
    assert_eq!(controller.state(), LoopState::Stopped);
    assert_eq!(controller.token(), None);
    assert_eq!(controller.cancel(), None);
    assert_eq!(controller.state(), LoopState::Stopped);
}

#[test]
fn cancel_after_the_token_fired_finds_nothing() {
    let mut controller = CaptureLoopController::new();
    controller.arm(WaitToken { key: 5 }).unwrap();
    assert_eq!(controller.fire(), FireAction::Rearm);
    assert_eq!(controller.cancel(), None);
    assert_eq!(controller.state(), LoopState::Stopped);
}

#[test]
fn stopped_loop_abstains_and_refuses_tokens() {
    let mut controller = CaptureLoopController::new();
    controller.arm(WaitToken { key: 5 }).unwrap();
    controller.cancel();
    assert_eq!(controller.fire(), FireAction::Abstain);
    assert_eq!(controller.arm(WaitToken { key: 6 }), Err(CaptureError::ProtocolViolation));
    assert_eq!(controller.state(), LoopState::Stopped);
    assert_eq!(controller.token(), None);
}

#[test]
fn halted_loop_keeps_its_token_until_it_fires() {
    let mut controller = CaptureLoopController::new();
    controller.arm(WaitToken { key: 5 }).unwrap();
    controller.halt();
    assert_eq!(controller.state(), LoopState::Stopped);
    assert_eq!(controller.token(), Some(WaitToken { key: 5 }));
    assert_eq!(controller.fire(), FireAction::Abstain);
    assert_eq!(controller.token(), None);
    assert_eq!(controller.state(), LoopState::Stopped);
}

#[test]
fn halted_loop_hands_its_token_to_cancel() {
    let mut controller = CaptureLoopController::new();
    controller.arm(WaitToken { key: 5 }).unwrap();
    controller.halt();
    assert_eq!(controller.cancel(), Some(WaitToken { key: 5 }));
    assert_eq!(controller.token(), None);
}

#[test]
fn token_count_never_exceeds_one_over_a_long_run() {
    let mut controller = CaptureLoopController::new();
    let mut armed = 0u32;
    let mut retired = 0u32;
    for round in 0u64..200 {
        if controller.arm(WaitToken { key: round }).is_ok() {
            armed += 1;
        }
        assert!(armed - retired <= 1);
        // A second arm in the same round is always refused.
        assert_eq!(
            controller.arm(WaitToken { key: round + 1000 }),
            Err(CaptureError::ProtocolViolation)
        );
        let live = controller.token().is_some();
        if round % 3 != 0 {
            controller.fire();
            if live {
                retired += 1;
            }
        }
        assert_eq!(armed - retired, if controller.token().is_some() { 1 } else { 0 });
    }
    let live = controller.token().is_some();
    assert_eq!(controller.cancel().is_some(), live);
    assert_eq!(controller.token(), None);
}

#[test]
fn queue_lease_is_taken_once_and_given_back_once() {
    let mut lease = QueueLease::new();
    assert_eq!(lease.held(), None);
    assert_eq!(lease.release(), None);
    assert_eq!(lease.acquire(DispatchQueueToken { queue_id: 3 }), Ok(()));
    assert_eq!(lease.held(), Some(DispatchQueueToken { queue_id: 3 }));
    assert_eq!(
        lease.acquire(DispatchQueueToken { queue_id: 4 }),
        Err(CaptureError::ProtocolViolation)
    );
    assert_eq!(lease.held(), Some(DispatchQueueToken { queue_id: 3 }));
    assert_eq!(lease.release(), Some(DispatchQueueToken { queue_id: 3 }));
    assert_eq!(lease.release(), None);
    assert_eq!(lease.held(), None);
}
