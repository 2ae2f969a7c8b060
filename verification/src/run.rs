//! Decisions of the run phase: attaching to the on-device ring buffer and
//! watching for the halt.
//!
//! The application owns the probe session and the polling loop; the rules the
//! loop follows are stated and proved here.

use vstd::prelude::*;

verus! {

/// How often an attach to the ring-buffer control block is retried when the
/// block is not found (the firmware may not have initialized it yet).
pub const RTT_RETRIES: usize = 10;

/// Size of the host buffer one ring-buffer read fills at most.
pub const READ_BUF_LEN: usize = 1024;

/// What one attach attempt to the ring-buffer control block reported.
#[derive(PartialEq, Eq, Structural, Clone, Copy, Debug)]
pub enum AttachEvent {
    /// The control block was found and the attach succeeded.
    Attached,
    /// The control block was not found (yet).
    ControlBlockNotFound,
    /// Any other transport error.
    OtherError,
}

/// What the attach loop does after an attempt.
#[derive(PartialEq, Eq, Structural, Clone, Copy, Debug)]
pub enum AttachDecision {
    /// Attached: stop retrying and use the connection.
    Proceed,
    /// Not found and attempts remain: try again.
    Retry,
    /// Not found and the retry budget is spent: fail the attach.
    FailRetriesExceeded,
    /// Another transport error: fail at once.
    FailOther,
}

/// Decides how the attach loop continues after attempt number `attempt`
/// (counted from zero) reported `event`. A missing control block is retried
/// until `RTT_RETRIES` retries are spent; any other error fails at once.
pub fn rtt_attach_decision(attempt: usize, event: AttachEvent) -> (r: AttachDecision)
    ensures
        r == (match event {
            AttachEvent::Attached => AttachDecision::Proceed,
            AttachEvent::ControlBlockNotFound => if attempt < RTT_RETRIES {
                AttachDecision::Retry
            } else {
                AttachDecision::FailRetriesExceeded
            },
            AttachEvent::OtherError => AttachDecision::FailOther,
        }),
{
    match event {
        AttachEvent::Attached => AttachDecision::Proceed,
        AttachEvent::ControlBlockNotFound => if attempt < RTT_RETRIES {
            AttachDecision::Retry
        } else {
            AttachDecision::FailRetriesExceeded
        },
        AttachEvent::OtherError => AttachDecision::FailOther,
    }
}

/// Whether the polling loop may stop: only after the core has reported
/// itself halted on two consecutive polls, so that one last batch of log
/// bytes is drained after the target first appears to have stopped.
pub fn halt_poll_done(was_halted: bool, is_halted: bool) -> (r: bool)
    ensures
        r == (was_halted && is_halted),
{
    was_halted && is_halted
}

} // verus!
