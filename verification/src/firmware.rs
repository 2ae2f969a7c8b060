//! The image pipeline: from raw firmware bytes to everything the runner
//! needs.
//!
//! Parsing is done by the trusted boundary (`crate::elf`); every decision on
//! the parsed values — which sections are loaded, the initial registers, the
//! range-name table, the diagnostic symbols — is verified here against the
//! names `elf_sections_of` / `elf_symbols_of`.

use crate::canary::RamRegion;
use crate::elf::{elf_sections_of, elf_symbols_of, parse_sections, parse_symbols};
use crate::image::{analyze, spec_analysis_ok, spec_analysis_outcome, Analysis, ImageError};
use crate::symbols::{
    range_names_from, spec_entries, spec_entry_fault, spec_rn_views, spec_rtt_addr,
    spec_sorted_by_start, spec_text_index, spec_uses_heap, text_index, RangeName,
};
use vstd::prelude::*;

verus! {

/// Everything derived from the firmware image: the loadable sections and
/// initial registers, the sorted range-name table, and the diagnostic
/// symbols (logging control block address, heap use).
#[derive(Debug)]
pub struct ImageAnalysis {
    pub analysis: Analysis,
    pub range_names: Vec<RangeName>,
    pub rtt_addr: Option<u32>,
    pub uses_heap: bool,
}

/// Analyzes a firmware image. The image is rejected when it is not a valid
/// object file, when the analyzer rejects its sections, or when a code
/// symbol's range does not fit in 32 bits; otherwise every part of the
/// result is pinned to what the parsed sections and symbols dictate.
pub fn analyze_image(bytes: &Vec<u8>, ram: &Option<RamRegion>) -> (r: Result<
    ImageAnalysis,
    ImageError,
>)
    ensures
        match elf_sections_of(bytes@) {
            None => r == Err::<ImageAnalysis, ImageError>(ImageError::Malformed),
            Some(raws) => match spec_analysis_outcome(raws@, *ram) {
                Some(e) => r == Err::<ImageAnalysis, ImageError>(e),
                None => if spec_text_index(raws@) is None {
                    r == Err::<ImageAnalysis, ImageError>(ImageError::MissingText)
                } else {
                    let text = spec_text_index(raws@)->Some_0;
                    match elf_symbols_of(bytes@) {
                        None => r == Err::<ImageAnalysis, ImageError>(ImageError::Malformed),
                        Some(syms) => if exists|j: int|
                            0 <= j < syms@.len() && spec_entry_fault(#[trigger] syms@[j], text) {
                            r == Err::<ImageAnalysis, ImageError>(ImageError::Malformed)
                        } else {
                            r matches Ok(ia) && {
                                &&& spec_analysis_ok(raws@, *ram, ia.analysis)
                                &&& spec_sorted_by_start(ia.range_names@)
                                &&& spec_rn_views(ia.range_names@).to_multiset() == spec_entries(
                                    syms@,
                                    text,
                                ).to_multiset()
                                &&& forall|k: int|
                                    0 <= k < ia.range_names@.len() ==> (
                                    #[trigger] ia.range_names@[k]).start & 1 == 0
                                &&& ia.rtt_addr == spec_rtt_addr(syms@)
                                &&& ia.uses_heap == spec_uses_heap(syms@)
                            }
                        },
                    }
                },
            },
        },
{
    let raws = match parse_sections(bytes.as_slice()) {
        Some(raws) => raws,
        None => {
            return Err(ImageError::Malformed);
        },
    };
    let analysis = match analyze(&raws, ram) {
        Ok(a) => a,
        Err(e) => {
            return Err(e);
        },
    };
    let text = match text_index(&raws) {
        Some(t) => t,
        None => {
            return Err(ImageError::MissingText);
        },
    };
    let syms = match parse_symbols(bytes.as_slice()) {
        Some(syms) => syms,
        None => {
            return Err(ImageError::Malformed);
        },
    };
    let (range_names, rtt_addr, uses_heap) = match range_names_from(&syms, text) {
        Ok(t) => t,
        Err(e) => {
            return Err(e);
        },
    };
    Ok(ImageAnalysis { analysis, range_names, rtt_addr, uses_heap })
}

} // verus!
