//! Protocol core of a process-scoped audio loopback capture engine.
//!
//! The crate holds the decisions of a capture session as state machines over
//! plain values: the start handshake, the self re-arming capture loop, the
//! buffer checkout discipline and the one-shot completion bridge. A driver
//! performs the operating-system calls that each returned action names and
//! reports their outcomes back.

pub mod bridge;
pub mod capture_loop;
pub mod checkout;
pub mod error;
pub mod format;
pub mod laws;
pub mod model;
pub mod protocol;
pub mod queue;
pub mod session;

pub use crate::bridge::{BridgePoll, CompletionBridge};
pub use crate::capture_loop::{CaptureLoopController, FireAction, LoopState, WaitToken};
pub use crate::checkout::{BufferCheckout, BufferPacket, EndpointBuffer};
pub use crate::error::{status_code, CaptureError};
pub use crate::format::AudioFormat;
pub use crate::protocol::{
    Delivery, LoopbackMode, SessionState, StartAction, StartEvent, StartStep, StopPlan,
};
pub use crate::queue::{DispatchQueueToken, QueueLease};
pub use crate::session::LoopbackCapture;
