//! Reading an ELF object file with the `object` crate.

use crate::image::symbol_views;
use crate::image::ProgramHeader;
use crate::image::Symbol;
use crate::image::SymbolView;
use crate::image::TestBinary;
use object::read::elf::ElfFile32;
use object::Object;
use object::ObjectSymbol;
use vstd::prelude::*;

verus! {

/// The program headers of the 32-bit ELF file `bytes`, in file order, as the
/// `object` crate reads them. There are none where it does not take `bytes`
/// for such a file.
pub uninterp spec fn elf_program_headers(bytes: Seq<u8>) -> Option<Seq<ProgramHeader>>;

/// The symbols of the symbol table of the 32-bit ELF file `bytes`, in table
/// order, as the `object` crate reads them. There are none where it does not
/// take `bytes` for such a file, or where it cannot read the name of one of
/// the symbols as a text.
pub uninterp spec fn elf_symbols(bytes: Seq<u8>) -> Option<Seq<SymbolView>>;

/// A list of program headers, if there is one, as a sequence.
pub open spec fn header_list(headers: Option<Vec<ProgramHeader>>) -> Option<Seq<ProgramHeader>> {
    match headers {
        Some(list) => Some(list@),
        None => None,
    }
}

/// A list of symbols, if there is one, as a sequence of views.
pub open spec fn symbol_list(symbols: Option<Vec<Symbol>>) -> Option<Seq<SymbolView>> {
    match symbols {
        Some(list) => Some(symbol_views(list@)),
        None => None,
    }
}

/// Parses `bytes` with `object::read::elf::ElfFile32::parse` and copies
/// four fields out of each entry of `raw_segments`, read in the byte order
/// of the file. The contract gives the result its name and claims nothing
/// else of it.
#[verifier::external_body]
fn read_program_headers(bytes: &[u8]) -> (headers: Option<Vec<ProgramHeader>>)
    ensures
        header_list(headers) == elf_program_headers(bytes@),
{
    let file: ElfFile32 = ElfFile32::parse(bytes).ok()?;
    let endian = file.endian();
    Some(
        file.raw_segments().iter().map(
            |h| ProgramHeader {
                p_type: h.p_type.get(endian),
                p_offset: h.p_offset.get(endian),
                p_paddr: h.p_paddr.get(endian),
                p_filesz: h.p_filesz.get(endian),
            },
        ).collect(),
    )
}

/// Parses `bytes` with `object::read::elf::ElfFile32::parse` and copies
/// name and address out of each item of `symbols`. The contract gives the
/// result its name and claims nothing else of it.
#[verifier::external_body]
fn read_symbols(bytes: &[u8]) -> (symbols: Option<Vec<Symbol>>)
    ensures
        symbol_list(symbols) == elf_symbols(bytes@),
{
    let file: ElfFile32 = ElfFile32::parse(bytes).ok()?;
    file.symbols().map(
        |s| Some(Symbol { name: s.name().ok()?.to_string(), address: s.address() }),
    ).collect()
}

/// What is read of the object file `bytes`: the bytes themselves, the
/// program headers and the symbols. Nothing is read of bytes that are no
/// 32-bit ELF file with readable symbol names.
pub open spec fn object_file(bytes: Seq<u8>) -> Option<
    (Seq<u8>, Seq<ProgramHeader>, Seq<SymbolView>),
> {
    match (elf_program_headers(bytes), elf_symbols(bytes)) {
        (Some(headers), Some(symbols)) => Some((bytes, headers, symbols)),
        _ => None,
    }
}

/// The parts of a binary, if there is one, as sequences.
pub open spec fn binary_parts(binary: Option<TestBinary>) -> Option<
    (Seq<u8>, Seq<ProgramHeader>, Seq<SymbolView>),
> {
    match binary {
        Some(b) => Some((b.data@, b.segments@, symbol_views(b.symbols@))),
        None => None,
    }
}

impl TestBinary {
    /// Reads a 32-bit ELF object file.
    pub fn parse(data: Vec<u8>) -> (binary: Option<TestBinary>)
        ensures
            binary_parts(binary) == object_file(data@),
    {
        let segments = match read_program_headers(data.as_slice()) {
            Some(segments) => segments,
            None => {
                return None;
            },
        };
        let symbols = match read_symbols(data.as_slice()) {
            Some(symbols) => symbols,
            None => {
                return None;
            },
        };
        Some(TestBinary::new(data, segments, symbols))
    }
}

} // verus!
