//! Analysis of the firmware image's sections.
//!
//! The raw sections of the parsed object file come in as plain values
//! (`RawSection`). The analyzer retains the loadable sections of the
//! recognized set, enforces their 4-byte alignment, decodes their payloads
//! into little-endian 32-bit words, derives the initial register values from
//! `.vector_table`, captures the `.debug_frame` payload, and tracks the
//! highest RAM address any section uses.

use crate::canary::RamRegion;
use vstd::bytes::spec_u32_from_le_bytes;
use vstd::prelude::*;

verus! {

/// One section of the parsed object file, as plain values. `name` is `None`
/// when the section's name could not be read, `data` is `None` when its
/// payload could not be read.
#[derive(Debug)]
pub struct RawSection {
    /// The section's index in the object file.
    pub index: usize,
    pub name: Option<String>,
    pub address: u64,
    pub size: u64,
    pub data: Option<Vec<u8>>,
}

/// Why an image was rejected.
#[derive(PartialEq, Eq, Structural, Clone, Copy, Debug)]
pub enum ImageError {
    /// A section payload could not be read, an address does not fit in 32
    /// bits, or `.vector_table` holds fewer than two words.
    Malformed,
    /// A recognized loadable section's address or size is not a multiple of
    /// four.
    NotAligned,
    /// No `.text` section.
    MissingText,
    /// No loadable `.vector_table` section.
    MissingVectorTable,
}

impl ImageError {
    /// A line describing the error.
    pub fn message(&self) -> (r: String)
        ensures
            r@ == match *self {
                ImageError::Malformed => "malformed firmware image"@,
                ImageError::NotAligned => "section is not 4-byte aligned"@,
                ImageError::MissingText => "`.text` section is missing"@,
                ImageError::MissingVectorTable => "`.vector_table` section is missing"@,
            },
    {
        match *self {
            ImageError::Malformed => "malformed firmware image".to_owned(),
            ImageError::NotAligned => "section is not 4-byte aligned".to_owned(),
            ImageError::MissingText => "`.text` section is missing".to_owned(),
            ImageError::MissingVectorTable => "`.vector_table` section is missing".to_owned(),
        }
    }
}

/// A loadable section: a 32-bit start address and the payload decoded as
/// little-endian 32-bit words.
#[derive(Debug)]
pub struct Section {
    pub start: u32,
    pub data: Vec<u32>,
}

/// A section as its mathematical content: start address and word sequence.
pub open spec fn spec_section_view(s: Section) -> (u32, Seq<u32>) {
    (s.start, s.data@)
}

/// Register values the firmware starts from, all taken from
/// `.vector_table`: its first word is the initial stack pointer, its second
/// the reset vector, its start address the vector-table base.
#[derive(PartialEq, Eq, Structural, Clone, Copy, Debug)]
pub struct InitialRegisters {
    pub sp: u32,
    pub pc: u32,
    pub vtor: u32,
}

/// Everything the analyzer derives from the image.
#[derive(Debug)]
pub struct Analysis {
    pub sections: Vec<Section>,
    pub registers: InitialRegisters,
    pub debug_frame: Option<Vec<u8>>,
    pub highest_ram_addr_in_use: u32,
}

/// The section names the analyzer compares against are pairwise distinct.
proof fn lemma_section_names_distinct()
    ensures
        ".debug_frame"@ != ".vector_table"@,
        ".debug_frame"@ != ".text"@,
        ".debug_frame"@ != ".rodata"@,
        ".debug_frame"@ != ".data"@,
{
    reveal_strlit(".debug_frame");
    reveal_strlit(".vector_table");
    reveal_strlit(".text");
    reveal_strlit(".rodata");
    reveal_strlit(".data");
    assert(".debug_frame"@.len() == 12);
    assert(".vector_table"@.len() == 13);
    assert(".text"@.len() == 5);
    assert(".rodata"@.len() == 7);
    assert(".data"@.len() == 5);
}

/// String comparison with a known spec: `r == (a@ == b@)`.
pub fn string_eq(a: &String, b: &str) -> (r: bool)
    ensures
        r == (a@ == b@),
{
    let bs: String = b.to_owned();
    *a == bs
}

/// Whether the section carries the given name.
pub open spec fn spec_named(s: RawSection, name: Seq<char>) -> bool {
    s.name matches Some(n) && n@ == name
}

/// The names of the loadable sections the runner programs to the device.
/// `.bss` and `.uninit` are left out on purpose: the firmware initializes
/// those itself.
pub open spec fn spec_recognized(name: Seq<char>) -> bool {
    ||| name == ".vector_table"@
    ||| name == ".text"@
    ||| name == ".rodata"@
    ||| name == ".data"@
}

/// Whether a raw section is retained as a loadable section: recognized name
/// and non-zero size.
pub open spec fn spec_retained(s: RawSection) -> bool {
    &&& s.name is Some
    &&& spec_recognized(s.name->Some_0@)
    &&& s.size != 0
}

/// The payload decoded as little-endian 32-bit words; a trailing fragment of
/// fewer than four bytes is dropped.
pub open spec fn spec_words_of(data: Seq<u8>) -> Seq<u32> {
    Seq::new((data.len() / 4) as nat, |i: int| spec_u32_from_le_bytes(data.subrange(4 * i, 4 * i + 4)))
}

/// Why one section is rejected, or `None` when it is acceptable. The checks
/// run in this order: an address beyond 32 bits (only probed when a RAM
/// region is known, for the RAM-usage tracking), an unreadable
/// `.debug_frame` payload, then for retained sections alignment, address
/// range, payload readability, and a `.vector_table` of at least two words.
pub open spec fn spec_section_fault(s: RawSection, ram: Option<RamRegion>) -> Option<ImageError> {
    if ram is Some && s.size != 0 && s.address + s.size - 1 > u32::MAX {
        Some(ImageError::Malformed)
    } else if spec_named(s, ".debug_frame"@) {
        if s.data is None {
            Some(ImageError::Malformed)
        } else {
            None
        }
    } else if spec_retained(s) {
        if s.size % 4 != 0 || s.address % 4 != 0 {
            Some(ImageError::NotAligned)
        } else if s.address > u32::MAX {
            Some(ImageError::Malformed)
        } else if s.data is None {
            Some(ImageError::Malformed)
        } else if s.name->Some_0@ == ".vector_table"@ && s.data->Some_0@.len() < 8 {
            Some(ImageError::Malformed)
        } else {
            None
        }
    } else {
        None
    }
}

/// The first fault among the sections, in order.
pub open spec fn spec_first_fault(v: Seq<RawSection>, ram: Option<RamRegion>) -> Option<ImageError>
    decreases v.len(),
{
    if v.len() == 0 {
        None
    } else {
        match spec_first_fault(v.drop_last(), ram) {
            Some(e) => Some(e),
            None => spec_section_fault(v.last(), ram),
        }
    }
}

/// A fault in a prefix is the fault of the whole sequence.
proof fn lemma_first_fault_prefix(v: Seq<RawSection>, ram: Option<RamRegion>, i: int)
    requires
        0 <= i <= v.len(),
        spec_first_fault(v.take(i), ram) is Some,
    ensures
        spec_first_fault(v, ram) == spec_first_fault(v.take(i), ram),
    decreases v.len(),
{
    if i == v.len() {
        assert(v.take(i) =~= v);
    } else {
        assert(v.drop_last() =~= v.take(v.len() - 1));
        assert(v.take(v.len() - 1).take(i) =~= v.take(i));
        lemma_first_fault_prefix(v.take(v.len() - 1), ram, i);
    }
}

/// Whether some section is named `.text`.
pub open spec fn spec_has_text(v: Seq<RawSection>) -> bool
    decreases v.len(),
{
    if v.len() == 0 {
        false
    } else {
        spec_has_text(v.drop_last()) || spec_named(v.last(), ".text"@)
    }
}

/// The last retained `.vector_table` section, if any.
pub open spec fn spec_vector_table(v: Seq<RawSection>) -> Option<RawSection>
    decreases v.len(),
{
    if v.len() == 0 {
        None
    } else if spec_retained(v.last()) && v.last().name->Some_0@ == ".vector_table"@ {
        Some(v.last())
    } else {
        spec_vector_table(v.drop_last())
    }
}

/// The payload of the last `.debug_frame` section, if any.
pub open spec fn spec_debug_frame(v: Seq<RawSection>) -> Option<Seq<u8>>
    decreases v.len(),
{
    if v.len() == 0 {
        None
    } else if spec_named(v.last(), ".debug_frame"@) {
        Some(v.last().data->Some_0@)
    } else {
        spec_debug_frame(v.drop_last())
    }
}

/// Whether a section's last byte lies in the RAM region.
pub open spec fn spec_sec_in_ram(s: RawSection, region: RamRegion) -> bool {
    &&& s.size != 0
    &&& region.start <= s.address + s.size - 1 < region.end
}

/// The highest RAM address any section uses, or 0 when none does.
pub open spec fn spec_highest(v: Seq<RawSection>, ram: Option<RamRegion>) -> int
    decreases v.len(),
{
    if v.len() == 0 {
        0
    } else {
        let rest = spec_highest(v.drop_last(), ram);
        let s = v.last();
        if ram matches Some(region) && spec_sec_in_ram(s, region) && s.address + s.size - 1 > rest {
            s.address + s.size - 1
        } else {
            rest
        }
    }
}

/// The retained sections in order, each as its start address and decoded
/// words.
pub open spec fn spec_loaded(v: Seq<RawSection>) -> Seq<(u32, Seq<u32>)>
    decreases v.len(),
{
    if v.len() == 0 {
        Seq::empty()
    } else {
        let rest = spec_loaded(v.drop_last());
        let s = v.last();
        if spec_retained(s) {
            rest.push(((s.address as u32), spec_words_of(s.data->Some_0@)))
        } else {
            rest
        }
    }
}

/// The analyzer's outcome: the error it raises, or `None` when the image is
/// accepted. A missing `.text` is reported first, then the first section
/// fault, then a missing `.vector_table`.
pub open spec fn spec_analysis_outcome(v: Seq<RawSection>, ram: Option<RamRegion>) -> Option<
    ImageError,
> {
    if !spec_has_text(v) {
        Some(ImageError::MissingText)
    } else if spec_first_fault(v, ram) is Some {
        spec_first_fault(v, ram)
    } else if spec_vector_table(v) is None {
        Some(ImageError::MissingVectorTable)
    } else {
        None
    }
}

/// What an accepted analysis holds: the retained sections' contents in
/// order, 4-byte aligned starts, the initial registers read from the last
/// `.vector_table` (stack pointer from its first word, reset vector from its
/// second), the captured `.debug_frame` payload, and the highest RAM address
/// in use.
pub open spec fn spec_analysis_ok(v: Seq<RawSection>, ram: Option<RamRegion>, a: Analysis) -> bool {
    &&& a.sections@.map_values(|s: Section| spec_section_view(s)) == spec_loaded(v)
    &&& forall|k: int|
        0 <= k < a.sections@.len() ==> (#[trigger] a.sections@[k]).start % 4 == 0
    &&& spec_vector_table(v) matches Some(vt) && {
        let words = spec_words_of(vt.data->Some_0@);
        &&& a.registers.vtor == vt.address as u32
        &&& a.registers.sp == words[0]
        &&& a.registers.pc == words[1]
    }
    &&& match spec_debug_frame(v) {
        Some(d) => a.debug_frame matches Some(df) && df@ == d,
        None => a.debug_frame is None,
    }
    &&& a.highest_ram_addr_in_use == spec_highest(v, ram)
}

/// Decodes a payload into little-endian 32-bit words.
fn decode_words(d: &Vec<u8>) -> (words: Vec<u32>)
    ensures
        words@ == spec_words_of(d@),
{
    let mut words: Vec<u32> = Vec::new();
    let mut k: usize = 0;
    while d.len() - k >= 4
        invariant
            k == 4 * words@.len(),
            k <= d@.len(),
            forall|m: int|
                0 <= m < words@.len() ==> words@[m] == spec_u32_from_le_bytes(
                    d@.subrange(4 * m, 4 * m + 4),
                ),
        decreases d@.len() - k,
    {
        let chunk = vstd::slice::slice_subrange(d.as_slice(), k, k + 4);
        let w = vstd::bytes::u32_from_le_bytes(chunk);
        words.push(w);
        k = k + 4;
    }
    proof {
        assert(words@.len() == d@.len() / 4);
        assert(words@ =~= spec_words_of(d@));
    }
    words
}

/// Analyzes the image's sections against the target's single RAM region
/// (`None` when none or several are known). Accepts the image exactly when
/// `.text` exists, no section faults, and a loadable `.vector_table` exists;
/// reports the corresponding error otherwise.
pub fn analyze(raw: &Vec<RawSection>, ram: &Option<RamRegion>) -> (r: Result<Analysis, ImageError>)
    ensures
        match spec_analysis_outcome(raw@, *ram) {
            Some(e) => r == Err::<Analysis, ImageError>(e),
            None => r matches Ok(a) && spec_analysis_ok(raw@, *ram, a),
        },
{
    let ghost v = raw@;

    // `.text` must exist before anything else is looked at.
    let mut has_text = false;
    let mut i: usize = 0;
    while i < raw.len()
        invariant
            i <= v.len(),
            v == raw@,
            has_text == spec_has_text(v.take(i as int)),
        decreases v.len() - i,
    {
        match &raw[i].name {
            Some(n) => {
                if string_eq(n, ".text") {
                    has_text = true;
                }
            },
            None => {},
        }
        proof {
            assert(v.take(i as int + 1).drop_last() =~= v.take(i as int));
            assert(v.take(i as int + 1).last() == v[i as int]);
        }
        i = i + 1;
    }
    proof {
        assert(v.take(v.len() as int) =~= v);
    }
    if !has_text {
        return Err(ImageError::MissingText);
    }

    let mut sections: Vec<Section> = Vec::new();
    let mut registers: Option<InitialRegisters> = None;
    let mut debug_frame: Option<Vec<u8>> = None;
    let mut highest: u32 = 0;
    let mut i: usize = 0;
    while i < raw.len()
        invariant
            i <= v.len(),
            v == raw@,
            spec_has_text(v),
            spec_first_fault(v.take(i as int), *ram) is None,
            sections@.map_values(|s: Section| spec_section_view(s)) == spec_loaded(
                v.take(i as int),
            ),
            forall|k: int|
                0 <= k < sections@.len() ==> (#[trigger] sections@[k]).start % 4 == 0,
            match spec_vector_table(v.take(i as int)) {
                Some(vt) => registers matches Some(rg) && rg.vtor == vt.address as u32
                    && rg.sp == spec_words_of(vt.data->Some_0@)[0] && rg.pc == spec_words_of(
                    vt.data->Some_0@,
                )[1],
                None => registers is None,
            },
            match spec_debug_frame(v.take(i as int)) {
                Some(d) => debug_frame matches Some(df) && df@ == d,
                None => debug_frame is None,
            },
            highest == spec_highest(v.take(i as int), *ram),
        decreases v.len() - i,
    {
        let s = &raw[i];
        proof {
            assert(v.take(i as int + 1).drop_last() =~= v.take(i as int));
            assert(v.take(i as int + 1).last() == v[i as int]);
        }

        // Track the highest RAM address in use; every section address must
        // fit in 32 bits for that.
        match ram {
            Some(region) => {
                if s.size != 0 {
                    let last128: u128 = s.address as u128 + s.size as u128 - 1;
                    if last128 > 0xFFFF_FFFFu128 {
                        proof {
                            lemma_first_fault_prefix(v, *ram, i as int + 1);
                        }
                        return Err(ImageError::Malformed);
                    }
                    let last: u32 = last128 as u32;
                    if region.contains(last) && last > highest {
                        highest = last;
                    }
                }
            },
            None => {},
        }

        match &s.name {
            Some(name) => {
                if string_eq(name, ".debug_frame") {
                    proof {
                        lemma_section_names_distinct();
                        assert(!spec_retained(v[i as int]));
                    }
                    match &s.data {
                        Some(d) => {
                            debug_frame = Some(vstd::slice::slice_to_vec(d.as_slice()));
                        },
                        None => {
                            proof {
                                lemma_first_fault_prefix(v, *ram, i as int + 1);
                            }
                            return Err(ImageError::Malformed);
                        },
                    }
                } else if (string_eq(name, ".vector_table") || string_eq(name, ".text")
                    || string_eq(name, ".rodata") || string_eq(name, ".data")) && s.size != 0 {
                    if s.size % 4 != 0 || s.address % 4 != 0 {
                        proof {
                            lemma_first_fault_prefix(v, *ram, i as int + 1);
                        }
                        return Err(ImageError::NotAligned);
                    }
                    if s.address > 0xFFFF_FFFFu64 {
                        proof {
                            lemma_first_fault_prefix(v, *ram, i as int + 1);
                        }
                        return Err(ImageError::Malformed);
                    }
                    let start: u32 = s.address as u32;
                    let d = match &s.data {
                        Some(d) => d,
                        None => {
                            proof {
                                lemma_first_fault_prefix(v, *ram, i as int + 1);
                            }
                            return Err(ImageError::Malformed);
                        },
                    };
                    let words = decode_words(d);
                    if string_eq(name, ".vector_table") {
                        if words.len() < 2 {
                            proof {
                                assert(d@.len() / 4 < 2 ==> d@.len() < 8);
                                lemma_first_fault_prefix(v, *ram, i as int + 1);
                            }
                            return Err(ImageError::Malformed);
                        }
                        proof {
                            assert(d@.len() / 4 >= 2 ==> d@.len() >= 8);
                        }
                        registers = Some(
                            InitialRegisters { vtor: start, sp: words[0], pc: words[1] },
                        );
                    }
                    sections.push(Section { start, data: words });
                    proof {
                        assert(sections@.map_values(|sec: Section| spec_section_view(sec))
                            =~= spec_loaded(v.take(i as int + 1)));
                    }
                }
            },
            None => {},
        }
        proof {
            assert(sections@.map_values(|sec: Section| spec_section_view(sec)) =~= spec_loaded(
                v.take(i as int + 1),
            ));
        }
        i = i + 1;
    }
    proof {
        assert(v.take(v.len() as int) =~= v);
    }

    let registers = match registers {
        Some(rg) => rg,
        None => {
            return Err(ImageError::MissingVectorTable);
        },
    };
    Ok(Analysis { sections, registers, debug_frame, highest_ram_addr_in_use: highest })
}

/// Every section of an accepted image is 4-byte aligned: a retained raw
/// section's address and size are multiples of four.
pub proof fn lemma_accepted_sections_aligned(v: Seq<RawSection>, ram: Option<RamRegion>, j: int)
    requires
        spec_first_fault(v, ram) is None,
        0 <= j < v.len(),
        spec_retained(v[j]),
    ensures
        v[j].address % 4 == 0,
        v[j].size % 4 == 0,
    decreases v.len(),
{
    if j == v.len() - 1 {
        lemma_section_names_distinct();
        assert(v.last() == v[j]);
        assert(spec_section_fault(v.last(), ram) is None);
        assert(!spec_named(v[j], ".debug_frame"@));
    } else {
        lemma_accepted_sections_aligned(v.drop_last(), ram, j);
        assert(v.drop_last()[j] == v[j]);
    }
}

} // verus!
