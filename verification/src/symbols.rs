//! The program-counter → symbolic-name table.
//!
//! Symbols resident in the code section become `(range, name)` pairs: the
//! range starts at the symbol's address with the Thumb bit cleared, the name
//! is demangled and loses its trailing compiler-generated hash suffix
//! (`::h` followed by 16 hex digits). The table is sorted by range start and
//! looked up by binary search. Symbol enumeration also discovers the
//! logging control block's address and whether an allocator entry point is
//! defined (heap use rules the stack canary out).

use crate::elf::{demangle_name, demangled};
use crate::image::{string_eq, ImageError};
use vstd::prelude::*;
use vstd::multiset::Multiset;
use vstd::seq_lib::group_to_multiset_ensures;
use vstd::string::StrSliceExecFns;

verus! {

/// One symbol of the object file, as plain values. `name` is `None` when
/// the symbol's name could not be read; `section` is the index of the
/// section the symbol is defined in, if any.
#[derive(Debug)]
pub struct RawSymbol {
    pub name: Option<String>,
    pub address: u64,
    pub size: u64,
    pub section: Option<usize>,
}

/// A program-counter range `[start, end)` with the demangled, hash-stripped
/// name of the symbol covering it.
#[derive(Debug)]
pub struct RangeName {
    pub start: u32,
    pub end: u32,
    pub name: String,
}

/// A range-name entry as its mathematical content.
pub open spec fn spec_rn_view(r: RangeName) -> (u32, u32, Seq<char>) {
    (r.start, r.end, r.name@)
}

/// A range-name table as its mathematical content.
pub open spec fn spec_rn_views(s: Seq<RangeName>) -> Seq<(u32, u32, Seq<char>)> {
    s.map_values(|r: RangeName| spec_rn_view(r))
}

/// Whether `c` is a hexadecimal digit.
pub open spec fn spec_is_hex_digit(c: char) -> bool {
    ||| ('0' as u32) <= c as u32 <= ('9' as u32)
    ||| ('a' as u32) <= c as u32 <= ('f' as u32)
    ||| ('A' as u32) <= c as u32 <= ('F' as u32)
}

fn is_hex_digit(c: char) -> (r: bool)
    ensures
        r == spec_is_hex_digit(c),
{
    let u = c as u32;
    (('0' as u32) <= u && u <= ('9' as u32)) || (('a' as u32) <= u && u <= ('f' as u32)) || ((
    'A' as u32) <= u && u <= ('F' as u32))
}

/// Whether the name ends in a compiler-generated hash suffix: `::h` followed
/// by exactly 16 hex digits.
pub open spec fn spec_has_hash_suffix(s: Seq<char>) -> bool {
    &&& s.len() >= 19
    &&& s[s.len() - 19] == ':'
    &&& s[s.len() - 18] == ':'
    &&& s[s.len() - 17] == 'h'
    &&& forall|i: int| s.len() - 16 <= i < s.len() ==> spec_is_hex_digit(#[trigger] s[i])
}

/// The name with its hash suffix stripped, when it carries one.
pub open spec fn spec_strip_hash(s: Seq<char>) -> Seq<char> {
    if spec_has_hash_suffix(s) {
        s.take(s.len() - 19)
    } else {
        s
    }
}

/// Strips the trailing hash suffix off a demangled name, validating its
/// shape character by character; anything shorter than the suffix or not
/// matching it is returned unchanged.
pub fn strip_hash(name: &str) -> (r: String)
    ensures
        r@ == spec_strip_hash(name@),
{
    let n = name.unicode_len();
    if n < 19 {
        return name.to_owned();
    }
    let mut ok = name.get_char(n - 19) == ':' && name.get_char(n - 18) == ':' && name.get_char(
        n - 17,
    ) == 'h';
    let mut i: usize = 0;
    while i < 16
        invariant
            n == name@.len(),
            n >= 19,
            i <= 16,
            ok == {
                &&& name@[n - 19] == ':'
                &&& name@[n - 18] == ':'
                &&& name@[n - 17] == 'h'
                &&& forall|j: int|
                    n - 16 <= j < n - 16 + i ==> spec_is_hex_digit(#[trigger] name@[j])
            },
        decreases 16 - i,
    {
        if !is_hex_digit(name.get_char(n - 16 + i)) {
            ok = false;
        }
        i = i + 1;
    }
    if ok {
        let stripped = name.substring_char(0, n - 19);
        proof {
            assert(name@.subrange(0, n - 19) =~= name@.take(n - 19));
        }
        stripped.to_owned()
    } else {
        name.to_owned()
    }
}

/// Law: stripping leaves no hash suffix, as long as the stripped prefix does
/// not itself end in one (a name carrying two suffixes in a row keeps the
/// inner one).
pub proof fn lemma_strip_hash_no_suffix(s: Seq<char>)
    requires
        spec_has_hash_suffix(s) ==> !spec_has_hash_suffix(s.take(s.len() - 19)),
    ensures
        !spec_has_hash_suffix(spec_strip_hash(s)),
{
}

/// Demangles a symbol name and strips the trailing hash suffix.
pub fn demangle_and_strip(name: &str) -> (r: String)
    ensures
        r@ == spec_strip_hash(demangled(name@)),
{
    let dm = demangle_name(name);
    strip_hash(dm.as_str())
}

/// Whether the symbol carries the given name.
pub open spec fn spec_sym_named(s: RawSymbol, name: Seq<char>) -> bool {
    s.name matches Some(n) && n@ == name
}

/// The allocator entry points whose presence marks the heap as in use.
pub open spec fn spec_is_alloc_name(n: Seq<char>) -> bool {
    ||| n == "__rust_alloc"@
    ||| n == "__rg_alloc"@
    ||| n == "__rdl_alloc"@
    ||| n == "malloc"@
}

/// Whether any symbol is an allocator entry point.
pub open spec fn spec_uses_heap(v: Seq<RawSymbol>) -> bool
    decreases v.len(),
{
    if v.len() == 0 {
        false
    } else {
        spec_uses_heap(v.drop_last()) || (v.last().name matches Some(n) && spec_is_alloc_name(n@))
    }
}

/// The address of the last symbol named `_SEGGER_RTT`, truncated to 32
/// bits, if any: the on-device logging control block.
pub open spec fn spec_rtt_addr(v: Seq<RawSymbol>) -> Option<u32>
    decreases v.len(),
{
    if v.len() == 0 {
        None
    } else if spec_sym_named(v.last(), "_SEGGER_RTT"@) {
        Some(v.last().address as u32)
    } else {
        spec_rtt_addr(v.drop_last())
    }
}

/// Whether a symbol contributes a range-name entry: it is named, defined in
/// the code section, and covers at least one byte.
pub open spec fn spec_text_symbol(s: RawSymbol, text: usize) -> bool {
    &&& s.name is Some
    &&& s.section == Some(text)
    &&& s.size > 0
}

/// The entry a code symbol contributes: start is its address with the Thumb
/// bit cleared, the range covers its size, the name is demangled and
/// stripped.
pub open spec fn spec_entry_of(s: RawSymbol) -> (u32, u32, Seq<char>) {
    let start = (s.address as u32) & 0xFFFF_FFFEu32;
    (start, (start + (s.size as u32)) as u32, spec_strip_hash(demangled(s.name->Some_0@)))
}

/// Whether a code symbol's range end would not fit in 32 bits.
pub open spec fn spec_entry_fault(s: RawSymbol, text: usize) -> bool {
    &&& spec_text_symbol(s, text)
    &&& ((s.address as u32) & 0xFFFF_FFFEu32) + (s.size as u32) > u32::MAX
}

/// The entries the code symbols contribute, in symbol order.
pub open spec fn spec_entries(v: Seq<RawSymbol>, text: usize) -> Seq<(u32, u32, Seq<char>)>
    decreases v.len(),
{
    if v.len() == 0 {
        Seq::empty()
    } else {
        let rest = spec_entries(v.drop_last(), text);
        if spec_text_symbol(v.last(), text) {
            rest.push(spec_entry_of(v.last()))
        } else {
            rest
        }
    }
}

/// Every entry's range start has the Thumb bit cleared.
proof fn lemma_entries_even(v: Seq<RawSymbol>, text: usize, j: int)
    requires
        0 <= j < spec_entries(v, text).len(),
    ensures
        spec_entries(v, text)[j].0 & 1 == 0,
    decreases v.len(),
{
    if v.len() > 0 {
        let rest = spec_entries(v.drop_last(), text);
        if spec_text_symbol(v.last(), text) && j == rest.len() {
            let a = v.last().address as u32;
            assert((a & 0xFFFF_FFFEu32) & 1 == 0) by (bit_vector);
        } else {
            lemma_entries_even(v.drop_last(), text, j);
        }
    }
}

/// The table is sorted by range start.
pub open spec fn spec_sorted_by_start(v: Seq<RangeName>) -> bool {
    forall|i: int, j: int| 0 <= i < j < v.len() ==> v[i].start <= v[j].start
}

/// Sorts the table by range start; the entries are kept, as a multiset (the
/// order among equal starts is not pinned).
fn sort_by_start(v: &mut Vec<RangeName>)
    ensures
        spec_sorted_by_start(final(v)@),
        spec_rn_views(final(v)@).to_multiset() == spec_rn_views(old(v)@).to_multiset(),
        final(v)@.len() == old(v)@.len(),
{
    broadcast use group_to_multiset_ensures;

    let ghost orig = v@;
    let mut out: Vec<RangeName> = Vec::new();
    while v.len() > 0
        invariant
            spec_sorted_by_start(out@),
            forall|a: int, b: int|
                0 <= a < out@.len() && 0 <= b < v@.len() ==> out@[a].start <= v@[b].start,
            spec_rn_views(out@).to_multiset().add(spec_rn_views(v@).to_multiset())
                == spec_rn_views(orig).to_multiset(),
            out@.len() + v@.len() == orig.len(),
        decreases v@.len(),
    {
        // index of a minimal start among the remaining entries
        let mut m: usize = 0;
        let mut k: usize = 1;
        while k < v.len()
            invariant
                m < v@.len(),
                k <= v@.len(),
                forall|j: int| 0 <= j < k ==> v@[m as int].start <= v@[j].start,
            decreases v@.len() - k,
        {
            if v[k].start < v[m].start {
                m = k;
            }
            k = k + 1;
        }
        let ghost before = v@;
        let ghost out_before = out@;
        let x = v.remove(m);
        out.push(x);
        proof {
            broadcast use vstd::multiset::group_multiset_axioms;

            spec_rn_views(before).to_multiset_ensures();
            spec_rn_views(out_before).to_multiset_ensures();
            let e = spec_rn_view(x);
            assert(spec_rn_views(before)[m as int] == e);
            assert(spec_rn_views(before).contains(e));
            assert(spec_rn_views(v@) =~= spec_rn_views(before).remove(m as int));
            assert(spec_rn_views(out@) =~= spec_rn_views(out_before).push(e));
            assert(spec_rn_views(before).remove(m as int).to_multiset() =~= spec_rn_views(
                before,
            ).to_multiset().remove(e));
            assert(spec_rn_views(out_before).push(e).to_multiset() =~= spec_rn_views(
                out_before,
            ).to_multiset().insert(e));
            assert(spec_rn_views(v@).to_multiset() =~= spec_rn_views(before).to_multiset().remove(
                e,
            ));
            assert(spec_rn_views(out@).to_multiset() =~= spec_rn_views(
                out_before,
            ).to_multiset().insert(e));
            assert(spec_rn_views(before).to_multiset().count(e) > 0);
            assert(spec_rn_views(out@).to_multiset().add(spec_rn_views(v@).to_multiset())
                =~= spec_rn_views(out_before).to_multiset().add(
                spec_rn_views(before).to_multiset(),
            ));
        }
    }
    proof {
        assert(spec_rn_views(v@).to_multiset() =~= Multiset::<(u32, u32, Seq<char>)>::empty());
        assert(spec_rn_views(out@).to_multiset().add(Multiset::empty()) =~= spec_rn_views(
            out@,
        ).to_multiset());
    }
    *v = out;
}

/// Builds the range-name table from the symbols of the image, and discovers
/// the logging control block's address and heap use.
///
/// `text` is the index of the code section. The result's table is sorted by
/// range start, holds exactly the code symbols' entries, and every range
/// start has its low (Thumb) bit cleared. The image is rejected only when a
/// code symbol's range end does not fit in 32 bits.
pub fn range_names_from(symbols: &Vec<RawSymbol>, text: usize) -> (r: Result<
    (Vec<RangeName>, Option<u32>, bool),
    ImageError,
>)
    ensures
        r is Err <==> exists|j: int|
            0 <= j < symbols@.len() && spec_entry_fault(#[trigger] symbols@[j], text),
        r is Err ==> r == Err::<(Vec<RangeName>, Option<u32>, bool), ImageError>(
            ImageError::Malformed,
        ),
        r matches Ok(t) ==> {
            &&& spec_sorted_by_start(t.0@)
            &&& spec_rn_views(t.0@).to_multiset() == spec_entries(symbols@, text).to_multiset()
            &&& forall|k: int| 0 <= k < t.0@.len() ==> (#[trigger] t.0@[k]).start & 1 == 0
            &&& t.1 == spec_rtt_addr(symbols@)
            &&& t.2 == spec_uses_heap(symbols@)
        },
{
    let ghost v = symbols@;
    let mut ranges: Vec<RangeName> = Vec::new();
    let mut rtt: Option<u32> = None;
    let mut uses_heap = false;
    let mut i: usize = 0;
    while i < symbols.len()
        invariant
            i <= v.len(),
            v == symbols@,
            spec_rn_views(ranges@) == spec_entries(v.take(i as int), text),
            rtt == spec_rtt_addr(v.take(i as int)),
            uses_heap == spec_uses_heap(v.take(i as int)),
            forall|j: int| 0 <= j < i ==> !spec_entry_fault(#[trigger] v[j], text),
        decreases v.len() - i,
    {
        let s = &symbols[i];
        proof {
            assert(v.take(i as int + 1).drop_last() =~= v.take(i as int));
            assert(v.take(i as int + 1).last() == v[i as int]);
        }
        match &s.name {
            Some(name) => {
                if string_eq(name, "_SEGGER_RTT") {
                    rtt = Some(#[verifier::truncate] (s.address as u32));
                }
                if string_eq(name, "__rust_alloc") || string_eq(name, "__rg_alloc") || string_eq(
                    name,
                    "__rdl_alloc",
                ) || string_eq(name, "malloc") {
                    uses_heap = true;
                }
                let in_text = match s.section {
                    Some(sec) => sec == text,
                    None => false,
                };
                if in_text && s.size > 0 {
                    let start = #[verifier::truncate] (s.address as u32) & 0xFFFF_FFFEu32;
                    let size32 = #[verifier::truncate] (s.size as u32);
                    if size32 > 0xFFFF_FFFFu32 - start {
                        return Err(ImageError::Malformed);
                    }
                    let nm = demangle_and_strip(name.as_str());
                    ranges.push(RangeName { start, end: start + size32, name: nm });
                    proof {
                        assert(spec_rn_views(ranges@) =~= spec_entries(v.take(i as int + 1), text));
                    }
                }
            },
            None => {},
        }
        i = i + 1;
    }
    proof {
        assert(v.take(v.len() as int) =~= v);
    }
    sort_by_start(&mut ranges);
    proof {
        broadcast use group_to_multiset_ensures;

        assert forall|k: int| 0 <= k < ranges@.len() implies (#[trigger] ranges@[k]).start & 1
            == 0 by {
            let e = spec_rn_view(ranges@[k]);
            assert(spec_rn_views(ranges@)[k] == e);
            assert(spec_rn_views(ranges@).contains(e));
            assert(spec_entries(v, text).to_multiset().count(e) > 0);
            assert(spec_entries(v, text).contains(e));
            let j = choose|j: int|
                0 <= j < spec_entries(v, text).len() && spec_entries(v, text)[j] == e;
            lemma_entries_even(v, text, j);
        }
    }
    Ok((ranges, rtt, uses_heap))
}

/// Whether `pc` lies in the entry's range.
pub open spec fn spec_contains_pc(r: RangeName, pc: u32) -> bool {
    r.start <= pc < r.end
}

/// A well-formed table: ranges are ordered and pairwise disjoint.
pub open spec fn spec_wf_ranges(v: Seq<RangeName>) -> bool {
    &&& forall|i: int| 0 <= i < v.len() ==> (#[trigger] v[i]).start <= v[i].end
    &&& forall|i: int, j: int| 0 <= i < j < v.len() ==> v[i].end <= v[j].start
}

/// Binary search for the entry whose range contains `pc`. A hit is always
/// genuine; a miss is conclusive when the table's ranges are pairwise
/// disjoint (symbol tables of linked images are).
pub fn find_name(ranges: &Vec<RangeName>, pc: u32) -> (r: Option<usize>)
    requires
        spec_sorted_by_start(ranges@),
    ensures
        r matches Some(i) ==> i < ranges@.len() && spec_contains_pc(ranges@[i as int], pc),
        r is None && spec_wf_ranges(ranges@) ==> forall|j: int|
            0 <= j < ranges@.len() ==> !spec_contains_pc(#[trigger] ranges@[j], pc),
{
    let mut lo: usize = 0;
    let mut hi: usize = ranges.len();
    while lo < hi
        invariant
            lo <= hi <= ranges@.len(),
            spec_sorted_by_start(ranges@),
            spec_wf_ranges(ranges@) ==> forall|j: int|
                0 <= j < ranges@.len() && !(lo <= j < hi) ==> !spec_contains_pc(
                    #[trigger] ranges@[j],
                    pc,
                ),
        decreases hi - lo,
    {
        let mid = lo + (hi - lo) / 2;
        let start = ranges[mid].start;
        let end = ranges[mid].end;
        if start <= pc && pc < end {
            return Some(mid);
        } else if pc < start {
            hi = mid;
        } else {
            proof {
                if spec_wf_ranges(ranges@) {
                    assert forall|j: int| 0 <= j <= mid implies !spec_contains_pc(
                        #[trigger] ranges@[j],
                        pc,
                    ) by {
                        if j < mid {
                            assert(ranges@[j].end <= ranges@[mid as int].start);
                        }
                    }
                }
            }
            lo = mid + 1;
        }
    }
    None
}

/// The index (in the object file) of the first section named `.text`.
pub open spec fn spec_text_index(v: Seq<crate::image::RawSection>) -> Option<usize>
    decreases v.len(),
{
    if v.len() == 0 {
        None
    } else if crate::image::spec_named(v[0], ".text"@) {
        Some(v[0].index)
    } else {
        spec_text_index(v.drop_first())
    }
}

proof fn lemma_text_index_skip(v: Seq<crate::image::RawSection>, i: int)
    requires
        0 <= i <= v.len(),
        forall|j: int| 0 <= j < i ==> !crate::image::spec_named(#[trigger] v[j], ".text"@),
    ensures
        spec_text_index(v) == spec_text_index(v.skip(i)),
    decreases i,
{
    if i > 0 {
        lemma_text_index_skip(v, i - 1);
        assert(v.skip(i - 1).drop_first() =~= v.skip(i));
        assert(v.skip(i - 1)[0] == v[i - 1]);
    } else {
        assert(v.skip(0) =~= v);
    }
}

/// The index of the first section named `.text`, if any.
pub fn text_index(raw: &Vec<crate::image::RawSection>) -> (r: Option<usize>)
    ensures
        r == spec_text_index(raw@),
{
    let mut i: usize = 0;
    while i < raw.len()
        invariant
            i <= raw@.len(),
            forall|j: int| 0 <= j < i ==> !crate::image::spec_named(#[trigger] raw@[j], ".text"@),
        decreases raw@.len() - i,
    {
        match &raw[i].name {
            Some(n) => {
                if string_eq(n, ".text") {
                    proof {
                        lemma_text_index_skip(raw@, i as int);
                        assert(raw@.skip(i as int)[0] == raw@[i as int]);
                    }
                    return Some(raw[i].index);
                }
            },
            None => {},
        }
        i = i + 1;
    }
    proof {
        lemma_text_index_skip(raw@, i as int);
        assert(raw@.skip(i as int) =~= Seq::empty());
    }
    None
}

} // verus!
