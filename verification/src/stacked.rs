//! The register block pushed by hardware on exception entry.
//!
//! On exception entry a Cortex-M core pushes 8 words (basic frame) or 25
//! words (extended frame, when the FPU was in use) onto the active stack, in
//! an order fixed by the architecture. The caller reads the words from the
//! device at the current stack pointer; assembling and measuring the block
//! is done here. The FPU registers are kept as their raw 32-bit bit
//! patterns.

use crate::registers::{Registers, REG_LR, REG_SP};
use vstd::prelude::*;

verus! {

/// Number of 32-bit words stacked in a basic frame.
pub const WORDS_BASIC: usize = 8;

/// Number of 32-bit words stacked in an extended frame: the basic frame,
/// 16 FPU registers and one status word.
pub const WORDS_EXTENDED: usize = 25;

/// The FPU block of an extended frame, each register as its raw bits.
#[derive(PartialEq, Eq, Structural, Clone, Copy, Debug)]
pub struct StackedFpuRegs {
    pub s0: u32,
    pub s1: u32,
    pub s2: u32,
    pub s3: u32,
    pub s4: u32,
    pub s5: u32,
    pub s6: u32,
    pub s7: u32,
    pub s8: u32,
    pub s9: u32,
    pub s10: u32,
    pub s11: u32,
    pub s12: u32,
    pub s13: u32,
    pub s14: u32,
    pub s15: u32,
    pub fpscr: u32,
}

/// Registers stacked on exception entry.
#[derive(PartialEq, Eq, Structural, Clone, Copy, Debug)]
pub struct Stacked {
    pub r0: u32,
    pub r1: u32,
    pub r2: u32,
    pub r3: u32,
    pub r12: u32,
    pub lr: u32,
    pub pc: u32,
    pub xpsr: u32,
    pub fpu_regs: Option<StackedFpuRegs>,
}

/// How many words the caller must read from the stack for a frame of the
/// given kind.
pub fn words_needed(fpu: bool) -> (r: usize)
    ensures
        r == if fpu {
            WORDS_EXTENDED as int
        } else {
            WORDS_BASIC as int
        },
{
    if fpu {
        WORDS_EXTENDED
    } else {
        WORDS_BASIC
    }
}

impl Stacked {
    /// Assembles the stacked registers from the words read at the stack
    /// pointer, in the architecture's layout: `r0, r1, r2, r3, r12, lr, pc,
    /// xpsr`, then for an extended frame `s0..s15, fpscr`.
    pub fn from_words(words: &Vec<u32>, fpu: bool) -> (r: Stacked)
        requires
            words@.len() == if fpu {
                WORDS_EXTENDED as int
            } else {
                WORDS_BASIC as int
            },
        ensures
            r.r0 == words@[0],
            r.r1 == words@[1],
            r.r2 == words@[2],
            r.r3 == words@[3],
            r.r12 == words@[4],
            r.lr == words@[5],
            r.pc == words@[6],
            r.xpsr == words@[7],
            r.fpu_regs is Some <==> fpu,
            fpu ==> r.fpu_regs == Some(
                StackedFpuRegs {
                    s0: words@[8],
                    s1: words@[9],
                    s2: words@[10],
                    s3: words@[11],
                    s4: words@[12],
                    s5: words@[13],
                    s6: words@[14],
                    s7: words@[15],
                    s8: words@[16],
                    s9: words@[17],
                    s10: words@[18],
                    s11: words@[19],
                    s12: words@[20],
                    s13: words@[21],
                    s14: words@[22],
                    s15: words@[23],
                    fpscr: words@[24],
                },
            ),
    {
        Stacked {
            r0: words[0],
            r1: words[1],
            r2: words[2],
            r3: words[3],
            r12: words[4],
            lr: words[5],
            pc: words[6],
            xpsr: words[7],
            fpu_regs: if fpu {
                Some(
                    StackedFpuRegs {
                        s0: words[8],
                        s1: words[9],
                        s2: words[10],
                        s3: words[11],
                        s4: words[12],
                        s5: words[13],
                        s6: words[14],
                        s7: words[15],
                        s8: words[16],
                        s9: words[17],
                        s10: words[18],
                        s11: words[19],
                        s12: words[20],
                        s13: words[21],
                        s14: words[22],
                        s15: words[23],
                        fpscr: words[24],
                    },
                )
            } else {
                None
            },
        }
    }

    /// The in-memory size of these stacked registers in bytes: 32 for a
    /// basic frame, 100 for an extended one.
    pub fn size(&self) -> (r: u32)
        ensures
            r == if self.fpu_regs is Some {
                100int
            } else {
                32int
            },
    {
        if self.fpu_regs.is_none() {
            32
        } else {
            100
        }
    }
}

/// Crosses one exception entry during a walk: the caller's link register and
/// stack pointer come from the stacked frame, the stack pointer advances past
/// the stacked words, and the walk resumes at the stacked program counter.
pub fn apply_exception_entry(regs: &mut Registers, stacked: &Stacked, sp: u32) -> (new_pc: u32)
    requires
        sp + (if stacked.fpu_regs is Some {
            100int
        } else {
            32int
        }) <= u32::MAX,
    ensures
        final(regs)@ == old(regs)@.insert(REG_LR, stacked.lr).insert(
            REG_SP,
            (sp + if stacked.fpu_regs is Some {
                100u32
            } else {
                32u32
            }) as u32,
        ),
        new_pc == stacked.pc,
{
    regs.insert(REG_LR, stacked.lr);
    let size = stacked.size();
    regs.insert(REG_SP, sp + size);
    stacked.pc
}

} // verus!
