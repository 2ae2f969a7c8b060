//! The stack-overflow canary: where it goes, how long it is, and what a
//! disturbed canary means.
//!
//! Before the firmware runs, a fixed byte pattern is written to the RAM
//! between the highest address the loaded sections use and the initial stack
//! pointer. After the firmware halts, the bytes are read back: the first
//! byte that no longer holds the pattern marks the deepest stack usage.

use vstd::prelude::*;

verus! {

/// The byte pattern written to the canary region.
pub const STACK_CANARY: u8 = 0xAA;

/// A RAM region of the target, as the half-open address range
/// `[start, end)`.
#[derive(PartialEq, Eq, Structural, Clone, Copy, Debug)]
pub struct RamRegion {
    pub start: u32,
    pub end: u32,
}

impl RamRegion {
    /// Whether `addr` lies in the region.
    pub open spec fn spec_contains(&self, addr: u32) -> bool {
        self.start <= addr < self.end
    }

    /// Whether `addr` lies in the region.
    pub fn contains(&self, addr: u32) -> (r: bool)
        ensures
            r == self.spec_contains(addr),
    {
        self.start <= addr && addr < self.end
    }
}

/// A canary placement: `len` bytes of the pattern starting at `addr`.
#[derive(PartialEq, Eq, Structural, Clone, Copy, Debug)]
pub struct Canary {
    pub addr: u32,
    pub len: u32,
}

/// When a canary is installed: exactly one RAM region is known, some loaded
/// section uses RAM, the heap is not in use, the byte below the initial
/// stack pointer lies in RAM, and the stack pointer is above the used RAM.
pub open spec fn spec_canary_wanted(
    ram: Option<RamRegion>,
    highest_ram_addr_in_use: u32,
    uses_heap: bool,
    sp: u32,
) -> bool {
    &&& ram is Some
    &&& highest_ram_addr_in_use != 0
    &&& !uses_heap
    &&& ram->Some_0.spec_contains((sp - 1) as u32)
    &&& highest_ram_addr_in_use < sp
}

/// Decides whether to install a canary, and where. When installed, it
/// starts right above the highest RAM address in use and covers a tenth of
/// the available stack, capped at 1024 bytes.
///
/// `ram` is the single RAM region of the target, or `None` when none or
/// several are known (several RAM regions leave the canary out: the stack
/// may live in any of them).
pub fn canary_decision(
    ram: &Option<RamRegion>,
    highest_ram_addr_in_use: u32,
    uses_heap: bool,
    sp: u32,
) -> (r: Option<Canary>)
    ensures
        r is Some <==> spec_canary_wanted(*ram, highest_ram_addr_in_use, uses_heap, sp),
        r matches Some(c) ==> {
            &&& c.addr == highest_ram_addr_in_use + 1
            &&& c.len == vstd::math::min((sp - highest_ram_addr_in_use - 1) as int / 10, 1024)
        },
{
    match ram {
        Some(region) => {
            if highest_ram_addr_in_use != 0 && !uses_heap && sp >= 1 && region.contains(sp - 1)
                && highest_ram_addr_in_use < sp {
                let stack_available = sp - highest_ram_addr_in_use - 1;
                let len = if stack_available / 10 < 1024 {
                    stack_available / 10
                } else {
                    1024
                };
                Some(Canary { addr: highest_ram_addr_in_use + 1, len })
            } else {
                None
            }
        },
        None => None,
    }
}

/// An installed canary lies wholly below the initial stack pointer: its last
/// byte is under `sp`.
pub proof fn lemma_canary_below_sp(
    ram: Option<RamRegion>,
    highest_ram_addr_in_use: u32,
    uses_heap: bool,
    sp: u32,
    c: Canary,
)
    requires
        spec_canary_wanted(ram, highest_ram_addr_in_use, uses_heap, sp),
        c.addr == highest_ram_addr_in_use + 1,
        c.len == vstd::math::min((sp - highest_ram_addr_in_use - 1) as int / 10, 1024),
    ensures
        c.addr + c.len <= sp,
{
    let avail = (sp - highest_ram_addr_in_use - 1) as int;
    vstd::arithmetic::div_mod::lemma_div_basics_5(avail, 10);
}

/// The position of the first canary byte that no longer holds the pattern,
/// or `None` when the canary is intact.
pub fn first_disturbed(buf: &Vec<u8>) -> (r: Option<usize>)
    ensures
        r matches Some(i) ==> {
            &&& i < buf@.len()
            &&& buf@[i as int] != STACK_CANARY
            &&& forall|j: int| 0 <= j < i ==> buf@[j] == STACK_CANARY
        },
        r is None <==> forall|j: int| 0 <= j < buf@.len() ==> buf@[j] == STACK_CANARY,
{
    let mut i: usize = 0;
    while i < buf.len()
        invariant
            i <= buf@.len(),
            forall|j: int| 0 <= j < i ==> buf@[j] == STACK_CANARY,
        decreases buf@.len() - i,
    {
        if buf[i] != STACK_CANARY {
            return Some(i);
        }
        i = i + 1;
    }
    None
}

/// How many bytes of stack the firmware has used at least, given the first
/// disturbed canary byte: the distance from that byte up to the initial
/// stack pointer.
pub fn min_stack_usage(sp: u32, canary_addr: u32, pos: usize) -> (r: u32)
    requires
        canary_addr + pos <= u32::MAX,
        canary_addr + pos <= sp,
    ensures
        r == sp - (canary_addr + pos),
{
    let touched_addr = canary_addr + (pos as u32);
    sp - touched_addr
}

} // verus!
