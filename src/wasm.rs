//! Section-level facts read from a module's container format by a streaming
//! parser. Each function here makes one pass of the parser over the bytes and
//! reports one fact per payload, in stream order; the stream ends after the
//! first decode error.

use vstd::prelude::*;
use wasmparser::{Parser, Payload};

verus! {

/// What one payload of the stream says about the module's size and shape.
#[derive(Debug, Clone)]
pub enum SectionFact {
    /// The header, with its format version.
    Version(u16),
    /// A function section declaring this many functions.
    Functions(u32),
    /// A table section declaring this many tables.
    Tables(u32),
    /// A data section with this many segments.
    DataSegments(u32),
    /// The start of a code section with this many bodies.
    CodeStart(u32),
    /// A payload that carries none of the facts above.
    Other,
    /// The decode error that ended the stream, as the parser words it.
    Malformed(String),
}

/// The facts of each payload that the parser yields for `bytes`.
pub uninterp spec fn section_facts_of(bytes: Seq<u8>) -> Seq<SectionFact>;

/// For each payload, the initial page counts of a memory section's entries
/// (`None` for an entry that fails to decode); empty for other payloads.
pub uninterp spec fn memory_initials_of(bytes: Seq<u8>) -> Seq<Vec<Option<u64>>>;

/// For each payload, the names of an export section's entries (`None` for an
/// entry that fails to decode); empty for other payloads.
pub uninterp spec fn export_names_of(bytes: Seq<u8>) -> Seq<Vec<Option<String>>>;

/// For each payload, the (module, name) pairs of an import section's entries
/// (`None` for an entry that fails to decode); empty for other payloads.
pub uninterp spec fn import_pairs_of(bytes: Seq<u8>) -> Seq<Vec<Option<(String, String)>>>;

/// Relies on wasmparser's `Parser::parse_all`, which yields the payloads of
/// `bytes` in order and stops after the first error; each payload is reduced
/// to its `SectionFact`.
#[verifier::external_body]
pub(crate) fn section_facts(bytes: &[u8]) -> (r: Vec<SectionFact>)
    ensures
        r@ == section_facts_of(bytes@),
{
    Parser::new(0).parse_all(bytes).map(|p| match p {
        Ok(Payload::Version { num, .. }) => SectionFact::Version(num),
        Ok(Payload::FunctionSection(s)) => SectionFact::Functions(s.count()),
        Ok(Payload::TableSection(s)) => SectionFact::Tables(s.count()),
        Ok(Payload::DataSection(s)) => SectionFact::DataSegments(s.count()),
        Ok(Payload::CodeSectionStart { count, .. }) => SectionFact::CodeStart(count),
        Ok(_) => SectionFact::Other,
        Err(e) => SectionFact::Malformed(e.to_string()),
    }).collect()
}

/// Relies on wasmparser's `Parser::parse_all` and its memory section reader:
/// the `initial` page count of each memory entry.
#[verifier::external_body]
pub(crate) fn memory_initials(bytes: &[u8]) -> (r: Vec<Vec<Option<u64>>>)
    ensures
        r@ == memory_initials_of(bytes@),
{
    Parser::new(0).parse_all(bytes).map(|p| match p {
        Ok(Payload::MemorySection(s)) => s.into_iter().map(|m| m.ok().map(|m| m.initial)).collect(),
        _ => Vec::new(),
    }).collect()
}

/// Relies on wasmparser's `Parser::parse_all` and its export section reader:
/// the `name` of each export entry.
#[verifier::external_body]
pub(crate) fn export_names(bytes: &[u8]) -> (r: Vec<Vec<Option<String>>>)
    ensures
        r@ == export_names_of(bytes@),
{
    Parser::new(0).parse_all(bytes).map(|p| match p {
        Ok(Payload::ExportSection(s)) => s.into_iter().map(|e| e.ok().map(|e| e.name.to_string())).collect(),
        _ => Vec::new(),
    }).collect()
}

/// Relies on wasmparser's `Parser::parse_all` and its import section reader:
/// the `module` and `name` of each import entry.
#[verifier::external_body]
pub(crate) fn import_pairs(bytes: &[u8]) -> (r: Vec<Vec<Option<(String, String)>>>)
    ensures
        r@ == import_pairs_of(bytes@),
{
    Parser::new(0).parse_all(bytes).map(|p| match p {
        Ok(Payload::ImportSection(s)) => s.into_iter().map(|i| i.ok().map(|i| (i.module.to_string(), i.name.to_string()))).collect(),
        _ => Vec::new(),
    }).collect()
}

} // verus!
