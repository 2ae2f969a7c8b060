use probe_run::symbols::{
    demangle_and_strip, find_name, range_names_from, strip_hash, text_index, RangeName,
    RawSymbol,
};
use probe_run::image::RawSection;

#[test]
fn hash_suffix_is_stripped() {
    assert_eq!(strip_hash("foo::bar::hd881d91ced85c2b0"), "foo::bar");
}

#[test]
fn name_without_suffix_is_kept() {
    assert_eq!(strip_hash("foo::bar"), "foo::bar");
}

#[test]
fn bare_hash_suffix_leaves_the_root() {
    assert_eq!(strip_hash("foo::habcdef0123456789"), "foo");
}

#[test]
fn short_names_are_kept() {
    assert_eq!(strip_hash("foo"), "foo");
    assert_eq!(strip_hash(""), "");
    assert_eq!(strip_hash("::hd881d91ced85c2b"), "::hd881d91ced85c2b");
}

#[test]
fn non_hex_suffix_is_kept() {
    assert_eq!(strip_hash("foo::hd881d91ced85c2bz"), "foo::hd881d91ced85c2bz");
    assert_eq!(strip_hash("foo::xd881d91ced85c2b0"), "foo::xd881d91ced85c2b0");
}

#[test]
fn demangling_strips_and_resolves() {
    // A legacy-mangled Rust symbol: demangles to `foo::h05af221e174051e9`,
    // whose hash suffix is then stripped.
    assert_eq!(demangle_and_strip("_ZN3foo17h05af221e174051e9E"), "foo");
    // An unmangled name passes through.
    assert_eq!(demangle_and_strip("HardFault"), "HardFault");
}

fn sym(name: &str, address: u64, size: u64, section: Option<usize>) -> RawSymbol {
    RawSymbol { name: Some(name.to_string()), address, size, section }
}

#[test]
fn range_names_sorted_and_thumb_cleared() {
    let syms = vec![
        sym("beta", 0x0000_0201, 40, Some(1)),
        sym("alpha", 0x0000_0101, 0x100, Some(1)),
        sym("other_section", 0x9999, 4, Some(2)),
        sym("zero_sized", 0x0000_0400, 0, Some(1)),
    ];
    let (ranges, rtt, uses_heap) = range_names_from(&syms, 1).unwrap();
    assert_eq!(rtt, None);
    assert!(!uses_heap);
    assert_eq!(ranges.len(), 2);
    // Sorted by start, with the Thumb bit cleared off the addresses.
    assert_eq!(ranges[0].start, 0x100);
    assert_eq!(ranges[0].end, 0x200);
    assert_eq!(ranges[0].name, "alpha");
    assert_eq!(ranges[1].start, 0x200);
    assert_eq!(ranges[1].end, 0x228);
    assert_eq!(ranges[1].name, "beta");
}

#[test]
fn rtt_and_heap_symbols_are_discovered() {
    let syms = vec![
        sym("_SEGGER_RTT", 0x2000_0040, 0, None),
        sym("__rust_alloc", 0x500, 2, Some(7)),
    ];
    let (ranges, rtt, uses_heap) = range_names_from(&syms, 1).unwrap();
    assert!(ranges.is_empty());
    assert_eq!(rtt, Some(0x2000_0040));
    assert!(uses_heap);
}

#[test]
fn malloc_marks_heap_use() {
    let syms = vec![sym("malloc", 0x500, 2, Some(3))];
    let (_, _, uses_heap) = range_names_from(&syms, 1).unwrap();
    assert!(uses_heap);
}

#[test]
fn unnamed_symbols_are_skipped() {
    let syms = vec![RawSymbol { name: None, address: 0x100, size: 8, section: Some(1) }];
    let (ranges, rtt, uses_heap) = range_names_from(&syms, 1).unwrap();
    assert!(ranges.is_empty());
    assert_eq!(rtt, None);
    assert!(!uses_heap);
}

#[test]
fn overflowing_range_is_rejected() {
    let syms = vec![sym("too_big", 0xFFFF_FFF0, 0x100, Some(1))];
    assert!(range_names_from(&syms, 1).is_err());
}

fn rn(start: u32, end: u32, name: &str) -> RangeName {
    RangeName { start, end, name: name.to_string() }
}

#[test]
fn lookup_finds_the_covering_range() {
    let ranges = vec![rn(0x100, 0x200, "a"), rn(0x200, 0x250, "b"), rn(0x300, 0x340, "c")];
    assert_eq!(find_name(&ranges, 0x100), Some(0));
    assert_eq!(find_name(&ranges, 0x1FF), Some(0));
    assert_eq!(find_name(&ranges, 0x200), Some(1));
    assert_eq!(find_name(&ranges, 0x33F), Some(2));
    assert_eq!(find_name(&ranges, 0x0FF), None);
    assert_eq!(find_name(&ranges, 0x260), None);
    assert_eq!(find_name(&ranges, 0x340), None);
    assert_eq!(find_name(&Vec::new(), 0x100), None);
}

#[test]
fn text_section_index_is_found() {
    let raw = vec![
        RawSection { index: 3, name: Some(".rodata".to_string()), address: 0, size: 0, data: None },
        RawSection { index: 5, name: Some(".text".to_string()), address: 0, size: 0, data: None },
    ];
    assert_eq!(text_index(&raw), Some(5));
    let raw = vec![
        RawSection { index: 3, name: Some(".rodata".to_string()), address: 0, size: 0, data: None },
    ];
    assert_eq!(text_index(&raw), None);
}
