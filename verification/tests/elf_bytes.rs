//! End-to-end checks on hand-assembled images: a minimal 32-bit little-endian
//! ARM ELF for the image pipeline, and a minimal `.debug_frame` section for
//! the unwind-row lookup.

use probe_run::firmware::analyze_image;
use probe_run::frames::unwind_row;
use probe_run::image::ImageError;
use probe_run::registers::{CfaRule, RegisterRule};
use probe_run::unwind::UnwindError;

fn push_u16(out: &mut Vec<u8>, v: u16) {
    out.extend_from_slice(&v.to_le_bytes());
}

fn push_u32(out: &mut Vec<u8>, v: u32) {
    out.extend_from_slice(&v.to_le_bytes());
}

struct Shdr {
    name: u32,
    kind: u32,
    addr: u32,
    offset: u32,
    size: u32,
    link: u32,
    info: u32,
    entsize: u32,
}

/// Assembles a minimal ELF32 ARM executable: `.text`, optionally
/// `.vector_table`, `.debug_frame`, a symbol table with `main` and
/// `_SEGGER_RTT`, and the string tables.
fn build_elf(with_vector_table: bool) -> Vec<u8> {
    // blob payloads
    let text: Vec<u8> = vec![0x80, 0xB5, 0x00, 0xBE];
    let mut vt: Vec<u8> = Vec::new();
    push_u32(&mut vt, 0x2000_8000); // initial SP
    push_u32(&mut vt, 0x0000_0101); // reset vector
    let debug_frame = build_debug_frame();

    // .shstrtab: names of all sections
    let mut shstrtab: Vec<u8> = vec![0];
    let name_off = |s: &str, tab: &mut Vec<u8>| -> u32 {
        let off = tab.len() as u32;
        tab.extend_from_slice(s.as_bytes());
        tab.push(0);
        off
    };
    let n_text = name_off(".text", &mut shstrtab);
    let n_vt = name_off(".vector_table", &mut shstrtab);
    let n_df = name_off(".debug_frame", &mut shstrtab);
    let n_symtab = name_off(".symtab", &mut shstrtab);
    let n_strtab = name_off(".strtab", &mut shstrtab);
    let n_shstrtab = name_off(".shstrtab", &mut shstrtab);

    // .strtab: symbol names
    let mut strtab: Vec<u8> = vec![0];
    let s_main = name_off("main", &mut strtab);
    let s_rtt = name_off("_SEGGER_RTT", &mut strtab);

    // .symtab: null symbol, `main` in .text (Thumb bit set), `_SEGGER_RTT`
    // as an absolute symbol.
    let mut symtab: Vec<u8> = vec![0; 16];
    push_u32(&mut symtab, s_main);
    push_u32(&mut symtab, 0x0000_0101); // st_value
    push_u32(&mut symtab, 2); // st_size
    symtab.push(0x12); // GLOBAL FUNC
    symtab.push(0);
    push_u16(&mut symtab, 1); // defined in .text (section 1)
    push_u32(&mut symtab, s_rtt);
    push_u32(&mut symtab, 0x2000_0040);
    push_u32(&mut symtab, 0);
    symtab.push(0x10); // GLOBAL NOTYPE
    symtab.push(0);
    push_u16(&mut symtab, 0xFFF1); // SHN_ABS

    // layout: ELF header, payloads, then the section header table
    let ehsize: u32 = 52;
    let mut blobs: Vec<(Vec<u8>, u32, u32, u32, u32, u32, u32)> = Vec::new();
    // (payload, sh_name, sh_type, sh_addr, sh_link, sh_info, sh_entsize)
    blobs.push((text, n_text, 1, 0x0000_0100, 0, 0, 0));
    if with_vector_table {
        blobs.push((vt, n_vt, 1, 0x0000_0000, 0, 0, 0));
    }
    blobs.push((debug_frame, n_df, 1, 0, 0, 0, 0));
    let strtab_index = if with_vector_table { 5 } else { 4 };
    blobs.push((symtab, n_symtab, 2, 0, strtab_index, 1, 16));
    blobs.push((strtab, n_strtab, 3, 0, 0, 0, 0));
    blobs.push((shstrtab, n_shstrtab, 3, 0, 0, 0, 0));

    let mut headers: Vec<Shdr> = Vec::new();
    headers.push(Shdr { name: 0, kind: 0, addr: 0, offset: 0, size: 0, link: 0, info: 0, entsize: 0 });
    let mut body: Vec<u8> = Vec::new();
    for (payload, name, kind, addr, link, info, entsize) in &blobs {
        let offset = ehsize + body.len() as u32;
        headers.push(Shdr {
            name: *name,
            kind: *kind,
            addr: *addr,
            offset,
            size: payload.len() as u32,
            link: *link,
            info: *info,
            entsize: *entsize,
        });
        body.extend_from_slice(payload);
    }
    while (ehsize as usize + body.len()) % 4 != 0 {
        body.push(0);
    }
    let shoff = ehsize + body.len() as u32;
    let shnum = headers.len() as u16;

    let mut out: Vec<u8> = Vec::new();
    // e_ident
    out.extend_from_slice(&[0x7F, b'E', b'L', b'F', 1, 1, 1, 0]);
    out.extend_from_slice(&[0; 8]);
    push_u16(&mut out, 2); // ET_EXEC
    push_u16(&mut out, 40); // EM_ARM
    push_u32(&mut out, 1); // e_version
    push_u32(&mut out, 0x0000_0101); // e_entry
    push_u32(&mut out, 0); // e_phoff
    push_u32(&mut out, shoff);
    push_u32(&mut out, 0x0500_0000); // e_flags: EABI v5
    push_u16(&mut out, 52); // e_ehsize
    push_u16(&mut out, 0); // e_phentsize
    push_u16(&mut out, 0); // e_phnum
    push_u16(&mut out, 40); // e_shentsize
    push_u16(&mut out, shnum);
    push_u16(&mut out, shnum - 1); // e_shstrndx: .shstrtab is last
    assert_eq!(out.len(), 52);
    out.extend_from_slice(&body);
    for h in &headers {
        push_u32(&mut out, h.name);
        push_u32(&mut out, h.kind);
        push_u32(&mut out, 0); // sh_flags
        push_u32(&mut out, h.addr);
        push_u32(&mut out, h.offset);
        push_u32(&mut out, h.size);
        push_u32(&mut out, h.link);
        push_u32(&mut out, h.info);
        push_u32(&mut out, 1); // sh_addralign
        push_u32(&mut out, h.entsize);
    }
    out
}

/// Assembles a `.debug_frame` section with one CIE (CFA = r13 + 0, return
/// address in r14) and one FDE covering `[0x100, 0x140)` that saves r14 at
/// CFA - 4.
fn build_debug_frame() -> Vec<u8> {
    let mut out: Vec<u8> = Vec::new();
    // CIE
    let cie_body: Vec<u8> = vec![
        0x01, // version 1
        0x00, // empty augmentation
        0x01, // code alignment factor 1
        0x7C, // data alignment factor -4
        0x0E, // return address register: r14
        0x0C, 0x0D, 0x00, // DW_CFA_def_cfa r13, 0
    ];
    push_u32(&mut out, 4 + cie_body.len() as u32);
    push_u32(&mut out, 0xFFFF_FFFF); // CIE id
    out.extend_from_slice(&cie_body);
    // FDE
    push_u32(&mut out, 14);
    push_u32(&mut out, 0); // CIE pointer: offset of the CIE above
    push_u32(&mut out, 0x0000_0100); // initial location
    push_u32(&mut out, 0x0000_0040); // address range
    out.push(0x8E); // DW_CFA_offset r14 ...
    out.push(0x01); // ... at CFA + 1 * data alignment factor
    out
}

#[test]
fn assembled_elf_is_analyzed_end_to_end() {
    let bytes = build_elf(true);
    let ia = analyze_image(&bytes, &None).unwrap();

    assert_eq!(ia.analysis.registers.sp, 0x2000_8000);
    assert_eq!(ia.analysis.registers.pc, 0x0000_0101);
    assert_eq!(ia.analysis.registers.vtor, 0);

    // `.text` and `.vector_table` are loadable; the word decoding is
    // little-endian.
    assert_eq!(ia.analysis.sections.len(), 2);
    assert_eq!(ia.analysis.sections[0].start, 0x100);
    assert_eq!(ia.analysis.sections[0].data, vec![0xBE00_B580]);

    // The symbol table yields `main` (Thumb bit cleared, hash-free) and the
    // logging control block address.
    assert_eq!(ia.range_names.len(), 1);
    assert_eq!(ia.range_names[0].start, 0x100);
    assert_eq!(ia.range_names[0].end, 0x102);
    assert_eq!(ia.range_names[0].name, "main");
    assert_eq!(ia.rtt_addr, Some(0x2000_0040));
    assert!(!ia.uses_heap);

    // `.debug_frame` is captured verbatim.
    assert_eq!(ia.analysis.debug_frame, Some(build_debug_frame()));
}

#[test]
fn image_without_vector_table_is_rejected() {
    let bytes = build_elf(false);
    let e = match analyze_image(&bytes, &None) {
        Err(e) => e,
        Ok(_) => panic!("image unexpectedly accepted"),
    };
    assert_eq!(e, ImageError::MissingVectorTable);
    assert_eq!(e.message(), "`.vector_table` section is missing");
}

#[test]
fn garbage_bytes_are_rejected() {
    let e = match analyze_image(&vec![0x00, 0x01, 0x02], &None) {
        Err(e) => e,
        Ok(_) => panic!("image unexpectedly accepted"),
    };
    assert_eq!(e, ImageError::Malformed);
}

#[test]
fn unwind_row_is_found_for_covered_addresses() {
    let df = build_debug_frame();
    let row = unwind_row(&df, 0x120).unwrap();
    assert_eq!(row.cfa, CfaRule::RegisterAndOffset { register: 13, offset: 0 });
    assert_eq!(row.rules, vec![(14, RegisterRule::Offset(-4))]);
}

#[test]
fn unwind_row_is_missing_outside_the_tables() {
    let df = build_debug_frame();
    assert_eq!(
        unwind_row(&df, 0x500).map(|_| ()).unwrap_err(),
        UnwindError::MissingDebugInfo
    );
}
