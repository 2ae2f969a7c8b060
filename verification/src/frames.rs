//! The trusted boundary to the DWARF unwind tables.
//!
//! Which unwind row covers a program counter is a function of the
//! `.debug_frame` bytes and the address alone, but stating it exactly would
//! reproduce the DWARF call-frame machinery; the result is therefore given a
//! name (`unwind_row_of`) that the verified walk takes as given. The row
//! comes out as plain values (`CfaRule`, `RegisterRule`) that the verified
//! register cache interprets.

use crate::registers::{CfaRule, RegisterRule};
use crate::unwind::UnwindError;
use gimli::read::CfaRule as GimliCfaRule;
use gimli::read::RegisterRule as GimliRegisterRule;
use gimli::read::{BaseAddresses, DebugFrame, UnwindContext, UnwindSection};
use gimli::LittleEndian;
use vstd::prelude::*;

verus! {

/// A frame's unwind row: the CFA rule and the register rules, each with its
/// register number.
#[derive(Debug)]
pub struct UnwindRow {
    pub cfa: CfaRule,
    pub rules: Vec<(u16, RegisterRule)>,
}

/// What the unwind tables hold for a program counter: the row covering it,
/// or `None` when no row does (or the bytes are not a valid section).
pub uninterp spec fn unwind_row_of(frame: Seq<u8>, pc: u32) -> Option<UnwindRow>;

/// Relies on gimli's DebugFrame::unwind_info_for_address over a 32-bit
/// little-endian view of the section: the row depends on the section bytes
/// and the address alone.
#[verifier::external_body]
fn fetch_unwind_row(frame: &[u8], pc: u32) -> (r: Option<UnwindRow>)
    ensures
        r == unwind_row_of(frame@, pc),
{
    let mut section = DebugFrame::new(frame, LittleEndian);
    section.set_address_size(4);
    let bases = BaseAddresses::default();
    let mut ctx = UnwindContext::new();
    let row = section.unwind_info_for_address(&bases, &mut ctx, pc.into(), DebugFrame::cie_from_offset).ok()?;
    let cfa = match row.cfa() {
        GimliCfaRule::RegisterAndOffset { register, offset } => CfaRule::RegisterAndOffset { register: register.0, offset: *offset },
        GimliCfaRule::Expression(_) => CfaRule::Expression,
    };
    let mut rules = Vec::new();
    for entry in row.registers() {
        rules.push((entry.0.0, match &entry.1 { GimliRegisterRule::Undefined => RegisterRule::Undefined, GimliRegisterRule::Offset(o) => RegisterRule::Offset(*o), _ => RegisterRule::Unsupported }));
    }
    Some(UnwindRow { cfa, rules })
}

/// The unwind row covering `pc`, or `MissingDebugInfo` when the unwind
/// tables hold none.
pub fn unwind_row(frame: &Vec<u8>, pc: u32) -> (r: Result<UnwindRow, UnwindError>)
    ensures
        match unwind_row_of(frame@, pc) {
            Some(row) => r == Ok::<UnwindRow, UnwindError>(row),
            None => r == Err::<UnwindRow, UnwindError>(UnwindError::MissingDebugInfo),
        },
{
    match fetch_unwind_row(frame.as_slice(), pc) {
        Some(row) => Ok(row),
        None => Err(UnwindError::MissingDebugInfo),
    }
}

} // verus!
