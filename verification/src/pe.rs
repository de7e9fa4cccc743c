//! The parts of a parsed PE image that the static analyzer reads: its entry
//! point, its section table and its imports.

use vstd::prelude::*;

verus! {

/// One entry of the section table.
#[derive(Debug, Clone, Copy, PartialEq, Eq, Structural)]
pub struct PeSection {
    pub virtual_address: u32,
    pub virtual_size: u32,
    pub size_of_raw_data: u32,
    pub pointer_to_raw_data: u32,
    pub characteristics: u32,
}

/// One imported function.
#[derive(Debug, Clone)]
pub struct PeImport {
    /// The DLL the function comes from.
    pub dll: String,
    /// The function name; goblin names a function imported by ordinal
    /// `ORDINAL n`, so the name is empty only where the image gives an
    /// empty hint/name entry.
    pub name: String,
    pub ordinal: u16,
}

/// The view of an import.
pub struct PeImportView {
    pub dll: Seq<char>,
    pub name: Seq<char>,
    pub ordinal: u16,
}

impl View for PeImport {
    type V = PeImportView;

    open spec fn view(&self) -> PeImportView {
        PeImportView { dll: self.dll@, name: self.name@, ordinal: self.ordinal }
    }
}

/// A parsed PE image, as far as the analyzer reads it.
#[derive(Debug, Clone)]
pub struct PeInfo {
    /// Relative virtual address of the entry point.
    pub entry: u64,
    pub sections: Vec<PeSection>,
    pub imports: Vec<PeImport>,
}

/// The view of a parsed image.
pub struct PeInfoView {
    pub entry: u64,
    pub sections: Seq<PeSection>,
    pub imports: Seq<PeImportView>,
}

impl View for PeInfo {
    type V = PeInfoView;

    open spec fn view(&self) -> PeInfoView {
        PeInfoView {
            entry: self.entry,
            sections: self.sections@,
            imports: self.imports@.map_values(|i: PeImport| i@),
        }
    }
}

/// What `goblin::pe::PE::parse` reads from a byte image: its entry point,
/// section table and imports, or nothing when the bytes are not a PE image.
pub uninterp spec fn goblin_pe_parse(bytes: Seq<u8>) -> Option<PeInfoView>;

/// `goblin::pe::PE::parse`: the entry point, section table and imports of a
/// PE image. goblin reports malformed input through its `Result`
/// (`Error::Malformed` and its kin), which is mapped to `None` here; its
/// README reports that the parser withstood long fuzzing runs, and no input on
/// which it panics is known, so nothing is required of the bytes. The
/// contract claims only that the result is a function of the bytes.
#[verifier::external_body]
pub(crate) fn parse_pe(bytes: &[u8]) -> (r: Option<PeInfo>)
    ensures
        r is Some == goblin_pe_parse(bytes@) is Some,
        r matches Some(p) ==> goblin_pe_parse(bytes@) == Some(p@),
{
    let pe = match goblin::pe::PE::parse(bytes) { Ok(pe) => pe, Err(_) => return None };
    let sections = pe.sections.iter().map(|s| PeSection { virtual_address: s.virtual_address,
        virtual_size: s.virtual_size, size_of_raw_data: s.size_of_raw_data,
        pointer_to_raw_data: s.pointer_to_raw_data, characteristics: s.characteristics });
    let imports = pe.imports.iter().map(|i| PeImport { dll: i.dll.to_string(),
        name: i.name.to_string(), ordinal: i.ordinal });
    Some(PeInfo { entry: pe.entry as u64, sections: sections.collect(), imports: imports.collect() })
}

/// Parses a PE image into what the analyzer reads of it; none when the
/// bytes are not a PE image.
pub fn parse_image(bytes: &[u8]) -> (r: Option<PeInfo>)
    ensures
        r is Some == goblin_pe_parse(bytes@) is Some,
        r matches Some(p) ==> goblin_pe_parse(bytes@) == Some(p@),
{
    parse_pe(bytes)
}

} // verus!
