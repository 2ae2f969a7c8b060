//! The register cache used while unwinding.
//!
//! During a walk some registers are known from stacked frames or unwind
//! rules, others must be read from the live core. The cache is a map from the
//! architectural register number to its 32-bit value; the entry of `REG_SP`
//! doubles as the current canonical frame address (CFA). Live reads are done
//! by the caller: a miss is reported through `get_cached`, and the value read
//! from the core is handed back through `insert`.
//!
//! For the Cortex-M core registers the DWARF register numbering coincides
//! with the architectural one, so one `u16` number serves both the unwind
//! rules and the probe.

use crate::unwind::UnwindError;
use std::collections::HashMap;
use vstd::prelude::*;

verus! {

broadcast use vstd::std_specs::hash::group_hash_axioms;

/// Architectural number of the stack pointer.
pub const REG_SP: u16 = 13;

/// Architectural number of the link register.
pub const REG_LR: u16 = 14;

/// Architectural number of the program counter.
pub const REG_PC: u16 = 15;

/// How the canonical frame address of the caller is recovered, as read from
/// a frame's unwind row.
#[derive(PartialEq, Eq, Structural, Clone, Copy, Debug)]
pub enum CfaRule {
    /// The CFA is the value of `register` plus `offset`.
    RegisterAndOffset { register: u16, offset: i64 },
    /// The CFA is given by a DWARF expression; this unwinder rejects it.
    Expression,
}

/// How a saved register of the caller is recovered, as read from a frame's
/// unwind row.
#[derive(PartialEq, Eq, Structural, Clone, Copy, Debug)]
pub enum RegisterRule {
    /// The register has no recoverable value; the unwinder never applies it.
    Undefined,
    /// The saved value lies in memory at CFA + offset.
    Offset(i64),
    /// Any other rule kind; this unwinder rejects it.
    Unsupported,
}

/// A lazy cache of core registers, keyed by architectural register number.
pub struct Registers {
    cache: HashMap<u16, u32>,
}

impl View for Registers {
    type V = Map<u16, u32>;

    closed spec fn view(&self) -> Map<u16, u32> {
        self.cache@
    }
}

impl Registers {
    /// Seeds the cache with the live link register and stack pointer, the two
    /// registers every walk starts from.
    pub fn new(lr: u32, sp: u32) -> (r: Registers)
        ensures
            r@ == Map::<u16, u32>::empty().insert(REG_LR, lr).insert(REG_SP, sp),
    {
        let mut cache: HashMap<u16, u32> = HashMap::new();
        cache.insert(REG_LR, lr);
        cache.insert(REG_SP, sp);
        Registers { cache }
    }

    /// The cached value of a register, or `None` when the caller must read it
    /// from the live core first.
    pub fn get_cached(&self, reg: u16) -> (r: Option<u32>)
        ensures
            r == if self@.contains_key(reg) {
                Some(self@[reg])
            } else {
                None::<u32>
            },
    {
        match self.cache.get(&reg) {
            Some(v) => Some(*v),
            None => None,
        }
    }

    /// Stores a register value, overwriting any cached one.
    pub fn insert(&mut self, reg: u16, val: u32)
        ensures
            final(self)@ == old(self)@.insert(reg, val),
    {
        self.cache.insert(reg, val);
    }

    /// Applies a frame's CFA rule: the new CFA is the base register's value
    /// plus the offset, truncated to 32 bits, and is stored under `REG_SP`.
    /// Returns whether the stored CFA changed. The base register must already
    /// be cached; an `Expression` rule is rejected unchanged.
    pub fn update_cfa(&mut self, rule: &CfaRule) -> (r: Result<bool, UnwindError>)
        requires
            *rule matches CfaRule::RegisterAndOffset { register, offset } ==> {
                &&& old(self)@.contains_key(register)
                &&& old(self)@[register] + offset <= i64::MAX
            },
        ensures
            match *rule {
                CfaRule::RegisterAndOffset { register, offset } => {
                    let cfa = (old(self)@[register] as i64 + offset) as u32;
                    &&& r == Ok::<bool, UnwindError>(
                        !(old(self)@.contains_key(REG_SP) && old(self)@[REG_SP] == cfa),
                    )
                    &&& final(self)@ == old(self)@.insert(REG_SP, cfa)
                    &&& final(self)@.contains_key(REG_SP) && final(self)@[REG_SP] == cfa
                },
                CfaRule::Expression => {
                    &&& r == Err::<bool, UnwindError>(UnwindError::UnsupportedUnwindRule)
                    &&& final(self)@ == old(self)@
                },
            },
    {
        match *rule {
            CfaRule::RegisterAndOffset { register, offset } => {
                let base = *self.cache.get(&register).unwrap();
                let sum: i64 = base as i64 + offset;
                let cfa: u32 = #[verifier::truncate] (sum as u32);
                let changed = match self.cache.get(&REG_SP) {
                    Some(old_cfa) => *old_cfa != cfa,
                    None => true,
                };
                self.cache.insert(REG_SP, cfa);
                Ok(changed)
            },
            CfaRule::Expression => Err(UnwindError::UnsupportedUnwindRule),
        }
    }

    /// The memory address a register rule restores from: CFA + offset,
    /// truncated to 32 bits. The caller reads the word at that address and
    /// stores it with `insert`. `Undefined` rules are never handed in; any
    /// rule other than `Offset` is rejected.
    pub fn restore_addr(&self, rule: &RegisterRule) -> (r: Result<u32, UnwindError>)
        requires
            !(rule is Undefined),
            self@.contains_key(REG_SP),
            *rule matches RegisterRule::Offset(offset) ==> self@[REG_SP] + offset <= i64::MAX,
        ensures
            match *rule {
                RegisterRule::Offset(offset) => r == Ok::<u32, UnwindError>(
                    (self@[REG_SP] as i64 + offset) as u32,
                ),
                _ => r == Err::<u32, UnwindError>(UnwindError::UnsupportedUnwindRule),
            },
    {
        match *rule {
            RegisterRule::Offset(offset) => {
                let cfa = *self.cache.get(&REG_SP).unwrap();
                let sum: i64 = cfa as i64 + offset;
                Ok(#[verifier::truncate] (sum as u32))
            },
            _ => Err(UnwindError::UnsupportedUnwindRule),
        }
    }
}

} // verus!
