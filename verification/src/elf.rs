//! The trusted boundary to the object parser and the symbol demangler.
//!
//! Parsing an object file and demangling a Rust symbol are functions of
//! their input bytes alone, but stating them exactly would reproduce the
//! two crates; their results are therefore given names (`elf_sections_of`,
//! `elf_symbols_of`, `demangled`) that the verified analysis functions take
//! as given. Everything the runner decides about the parsed values is done
//! by verified code on the plain `RawSection` / `RawSymbol` values these
//! wrappers hand out.

use crate::image::RawSection;
use crate::symbols::RawSymbol;
use object::read::{Object, ObjectSection, ObjectSymbol};
use vstd::prelude::*;

verus! {

/// What the object parser finds in the image: its sections in order, as
/// plain values, or `None` when the bytes are not a valid object file.
pub uninterp spec fn elf_sections_of(bytes: Seq<u8>) -> Option<Vec<RawSection>>;

/// Relies on object::read::File::parse and its section enumeration: the
/// sections found depend on the image bytes alone.
#[verifier::external_body]
pub fn parse_sections(bytes: &[u8]) -> (r: Option<Vec<RawSection>>)
    ensures
        r == elf_sections_of(bytes@),
{
    let file = match object::read::File::parse(bytes) {
        Ok(f) => f,
        Err(_) => return None,
    };
    let mut out: Vec<RawSection> = Vec::new();
    for sect in file.sections() {
        out.push(RawSection {
            index: sect.index().0,
            name: sect.name().ok().map(|n| n.to_string()),
            address: sect.address(),
            size: sect.size(),
            data: sect.data().ok().map(|d| d.to_vec()),
        });
    }
    Some(out)
}

/// What the object parser finds in the image's symbol table: the symbols in
/// order, as plain values, or `None` when the bytes are not a valid object
/// file.
pub uninterp spec fn elf_symbols_of(bytes: Seq<u8>) -> Option<Vec<RawSymbol>>;

/// Relies on object::read::File::parse and its symbol enumeration: the
/// symbols found depend on the image bytes alone.
#[verifier::external_body]
pub fn parse_symbols(bytes: &[u8]) -> (r: Option<Vec<RawSymbol>>)
    ensures
        r == elf_symbols_of(bytes@),
{
    let file = match object::read::File::parse(bytes) {
        Ok(f) => f,
        Err(_) => return None,
    };
    let mut out: Vec<RawSymbol> = Vec::new();
    for sym in file.symbols() {
        out.push(RawSymbol {
            name: sym.name().ok().map(|n| n.to_string()),
            address: sym.address(),
            size: sym.size(),
            section: sym.section_index().map(|i| i.0),
        });
    }
    Some(out)
}

/// What the demangler makes of a symbol name: a function of the name alone.
/// A name that is not mangled comes back unchanged.
pub uninterp spec fn demangled(name: Seq<char>) -> Seq<char>;

/// Relies on rustc_demangle::demangle: the demangled form depends on the
/// symbol name alone.
#[verifier::external_body]
pub fn demangle_name(name: &str) -> (r: String)
    ensures
        r@ == demangled(name@),
{
    rustc_demangle::demangle(name).to_string()
}

} // verus!
