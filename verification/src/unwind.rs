//! Per-frame decisions of the stack unwinder.
//!
//! Walking the call stack of a halted Cortex-M core alternates device reads
//! with decisions. The decisions are gathered here as pure functions: how a
//! link-register value is classified, when the walk terminates, and how the
//! walk's outcome maps to the process exit status.

use vstd::prelude::*;

verus! {

/// The link-register value that marks the bottom of the stack (set by the
/// reset handler before the first call).
pub const LR_END: u32 = 0xFFFF_FFFF;

/// Mask that clears the Thumb bit of a code address.
pub const THUMB_MASK: u32 = 0xFFFF_FFFE;

/// Exit status reported when the top-most exception frame is a hard fault.
pub const SIGABRT: i32 = 134;

/// The kind of the most recent exception frame seen during a walk.
#[derive(PartialEq, Eq, Structural, Clone, Copy, Debug)]
pub enum TopException {
    HardFault,
    Other,
}

/// Failures the unwinder raises; each aborts the walk.
#[derive(PartialEq, Eq, Structural, Clone, Copy, Debug)]
pub enum UnwindError {
    /// No unwind row covers the program counter.
    MissingDebugInfo,
    /// The link register holds an EXC_RETURN pattern outside the defined set.
    BadExcReturn,
    /// An ordinary return address lacks the Thumb bit.
    NonThumbReturnAddress,
    /// A CFA or register rule this unwinder does not interpret.
    UnsupportedUnwindRule,
}

impl UnwindError {
    /// A line describing the error.
    pub fn message(&self) -> (r: String)
        ensures
            r@ == match *self {
                UnwindError::MissingDebugInfo => "debug information is missing"@,
                UnwindError::BadExcReturn => "LR contains an invalid EXC_RETURN value"@,
                UnwindError::NonThumbReturnAddress => "LR does not have the Thumb bit set"@,
                UnwindError::UnsupportedUnwindRule => "unsupported unwind rule"@,
            },
    {
        match *self {
            UnwindError::MissingDebugInfo => "debug information is missing".to_owned(),
            UnwindError::BadExcReturn => "LR contains an invalid EXC_RETURN value".to_owned(),
            UnwindError::NonThumbReturnAddress => "LR does not have the Thumb bit set".to_owned(),
            UnwindError::UnsupportedUnwindRule => "unsupported unwind rule".to_owned(),
        }
    }
}

/// What a frame's link register dictates once the unwind row was applied.
#[derive(PartialEq, Eq, Structural, Clone, Copy, Debug)]
pub enum FrameStep {
    /// The reset sentinel was reached: the walk is complete.
    Done,
    /// The frame did not move and the return address equals the current
    /// program counter: the stack is corrupted and the walk stops.
    Corrupted,
    /// An EXC_RETURN value: registers were stacked by hardware on exception
    /// entry, with or without the extended FPU block.
    ExceptionEntry { fpu: bool },
    /// An ordinary return to `pc` (Thumb bit cleared).
    Normal { pc: u32 },
}

/// EXC_RETURN patterns that stack a basic frame map to `Some(false)`, those
/// that stack an extended (FPU) frame to `Some(true)`; everything else is
/// undefined.
pub open spec fn spec_exc_return_fpu(lr: u32) -> Option<bool> {
    if lr == 0xFFFF_FFF1 || lr == 0xFFFF_FFF9 || lr == 0xFFFF_FFFD {
        Some(false)
    } else if lr == 0xFFFF_FFE1 || lr == 0xFFFF_FFE9 || lr == 0xFFFF_FFED {
        Some(true)
    } else {
        None
    }
}

/// Classifies an EXC_RETURN value: does the stacked frame carry the extended
/// FPU block? `None` marks an invalid pattern.
pub fn classify_exc_return(lr: u32) -> (r: Option<bool>)
    ensures
        r == spec_exc_return_fpu(lr),
        r == Some(false) <==> (lr == 0xFFFF_FFF1 || lr == 0xFFFF_FFF9 || lr == 0xFFFF_FFFD),
        r == Some(true) <==> (lr == 0xFFFF_FFE1 || lr == 0xFFFF_FFE9 || lr == 0xFFFF_FFED),
{
    match lr {
        0xFFFF_FFF1 | 0xFFFF_FFF9 | 0xFFFF_FFFD => Some(false),
        0xFFFF_FFE1 | 0xFFFF_FFE9 | 0xFFFF_FFED => Some(true),
        _ => None,
    }
}

/// The decision taken after a frame's unwind row was applied: `lr` is the
/// restored link register, `pc` the frame's program counter, and
/// `cfa_changed` says whether applying the row moved the canonical frame
/// address.
pub open spec fn spec_frame_step(lr: u32, pc: u32, cfa_changed: bool) -> Result<
    FrameStep,
    UnwindError,
> {
    if lr == LR_END {
        Ok(FrameStep::Done)
    } else if !cfa_changed && lr & THUMB_MASK == pc & THUMB_MASK {
        Ok(FrameStep::Corrupted)
    } else if lr > 0xFFFF_FFE0 {
        match spec_exc_return_fpu(lr) {
            Some(fpu) => Ok(FrameStep::ExceptionEntry { fpu }),
            None => Err(UnwindError::BadExcReturn),
        }
    } else if lr & 1 == 1 {
        Ok(FrameStep::Normal { pc: lr & THUMB_MASK })
    } else {
        Err(UnwindError::NonThumbReturnAddress)
    }
}

/// Decides how the walk continues after one frame: stop at the reset
/// sentinel, stop on a corrupted stack, cross an exception entry, or follow
/// an ordinary return.
pub fn frame_step(lr: u32, pc: u32, cfa_changed: bool) -> (r: Result<FrameStep, UnwindError>)
    ensures
        r == spec_frame_step(lr, pc, cfa_changed),
{
    if lr == LR_END {
        Ok(FrameStep::Done)
    } else if !cfa_changed && lr & THUMB_MASK == pc & THUMB_MASK {
        Ok(FrameStep::Corrupted)
    } else if lr > 0xFFFF_FFE0 {
        match classify_exc_return(lr) {
            Some(fpu) => Ok(FrameStep::ExceptionEntry { fpu }),
            None => Err(UnwindError::BadExcReturn),
        }
    } else if lr & 1 == 1 {
        Ok(FrameStep::Normal { pc: lr & THUMB_MASK })
    } else {
        Err(UnwindError::NonThumbReturnAddress)
    }
}

/// The walk ends exactly when the link register holds the reset sentinel or
/// corruption is detected: the frame did not move while the return address
/// equals the program counter (Thumb bits masked).
pub proof fn lemma_walk_termination(lr: u32, pc: u32, cfa_changed: bool)
    ensures
        (spec_frame_step(lr, pc, cfa_changed) == Ok::<FrameStep, UnwindError>(FrameStep::Done)
            || spec_frame_step(lr, pc, cfa_changed) == Ok::<FrameStep, UnwindError>(
            FrameStep::Corrupted,
        )) <==> (lr == LR_END || (!cfa_changed && lr & THUMB_MASK == pc & THUMB_MASK)),
{
}

/// Folds one exception entry into the walk's top-exception accumulator: only
/// the first (most recent) exception frame is recorded; it is a hard fault
/// exactly when the frame's resolved name says so.
pub fn record_top_exception(top: Option<TopException>, frame_is_hardfault: bool) -> (r: Option<
    TopException,
>)
    ensures
        r == if top is Some {
            top
        } else if frame_is_hardfault {
            Some(TopException::HardFault)
        } else {
            Some(TopException::Other)
        },
{
    match top {
        Some(t) => Some(t),
        None => if frame_is_hardfault {
            Some(TopException::HardFault)
        } else {
            Some(TopException::Other)
        },
    }
}

/// Whether a frame's resolved name marks the hard-fault handler.
pub fn is_hardfault_name(name: &String) -> (r: bool)
    ensures
        r == (name@ == "HardFault"@),
{
    crate::image::string_eq(name, "HardFault")
}

/// The process exit status for a finished walk: `SIGABRT` after a hard
/// fault, success otherwise.
pub fn exit_code(top: Option<TopException>) -> (r: i32)
    ensures
        r == if top == Some(TopException::HardFault) {
            SIGABRT as int
        } else {
            0
        },
{
    if top == Some(TopException::HardFault) {
        SIGABRT
    } else {
        0
    }
}

} // verus!
