//! The structural validator: folds the section facts of a module into a
//! report of counts, names, errors and warnings.

use vstd::prelude::*;
use vstd::string::*;
use crate::decimal::{decimal, decimal_string};
use crate::text::{texts, lemma_texts_push};
use crate::wasm::{
    SectionFact, section_facts_of, memory_initials_of, export_names_of, import_pairs_of,
    section_facts, memory_initials, export_names, import_pairs,
};

verus! {

/// What a structural report says, over character sequences.
pub struct StructuralView {
    pub valid: bool,
    pub errors: Seq<Seq<char>>,
    pub warnings: Seq<Seq<char>>,
    pub function_count: u32,
    pub table_count: u32,
    pub data_section_size: u32,
    pub memory_pages: u64,
    pub export_functions: Seq<Seq<char>>,
    pub import_functions: Seq<Seq<char>>,
}

/// The structural facts of one module.
#[derive(Debug, Clone)]
pub struct WasmValidationResult {
    pub valid: bool,
    pub errors: Vec<String>,
    pub warnings: Vec<String>,
    pub function_count: u32,
    pub table_count: u32,
    pub data_section_size: u32,
    pub memory_pages: u64,
    pub export_functions: Vec<String>,
    pub import_functions: Vec<String>,
}

impl View for WasmValidationResult {
    type V = StructuralView;

    open spec fn view(&self) -> StructuralView {
        StructuralView {
            valid: self.valid,
            errors: texts(self.errors@),
            warnings: texts(self.warnings@),
            function_count: self.function_count,
            table_count: self.table_count,
            data_section_size: self.data_section_size,
            memory_pages: self.memory_pages,
            export_functions: texts(self.export_functions@),
            import_functions: texts(self.import_functions@),
        }
    }
}

/// The count of the last function section, or zero.
pub open spec fn last_function_count(facts: Seq<SectionFact>) -> u32
    decreases facts.len(),
{
    if facts.len() == 0 {
        0
    } else {
        match facts.last() {
            SectionFact::Functions(n) => n,
            _ => last_function_count(facts.drop_last()),
        }
    }
}

/// The count of the last table section, or zero.
pub open spec fn last_table_count(facts: Seq<SectionFact>) -> u32
    decreases facts.len(),
{
    if facts.len() == 0 {
        0
    } else {
        match facts.last() {
            SectionFact::Tables(n) => n,
            _ => last_table_count(facts.drop_last()),
        }
    }
}

/// The segment count of the last data section, or zero.
pub open spec fn last_data_count(facts: Seq<SectionFact>) -> u32
    decreases facts.len(),
{
    if facts.len() == 0 {
        0
    } else {
        match facts.last() {
            SectionFact::DataSegments(n) => n,
            _ => last_data_count(facts.drop_last()),
        }
    }
}

/// The warning that one fact raises, if any.
pub open spec fn fact_warning(fact: SectionFact) -> Seq<Seq<char>> {
    match fact {
        SectionFact::Version(n) => if n != 1 {
            seq!["Unusual WASM version: "@ + decimal(n as nat)]
        } else {
            seq![]
        },
        SectionFact::CodeStart(n) => if n == 0 {
            seq!["No code section found - contract may be empty"@]
        } else {
            seq![]
        },
        _ => seq![],
    }
}

/// The warnings that the facts raise, in stream order.
pub open spec fn fact_warnings(facts: Seq<SectionFact>) -> Seq<Seq<char>>
    decreases facts.len(),
{
    if facts.len() == 0 {
        seq![]
    } else {
        fact_warnings(facts.drop_last()) + fact_warning(facts.last())
    }
}

/// The decode errors among the facts, in stream order.
pub open spec fn fact_errors(facts: Seq<SectionFact>) -> Seq<Seq<char>>
    decreases facts.len(),
{
    if facts.len() == 0 {
        seq![]
    } else {
        let prev = fact_errors(facts.drop_last());
        match facts.last() {
            SectionFact::Malformed(m) => prev.push("WASM parsing error: "@ + m@),
            _ => prev,
        }
    }
}

/// The values present in a list of optional values, in order.
pub open spec fn present<T>(s: Seq<Option<T>>) -> Seq<T>
    decreases s.len(),
{
    if s.len() == 0 {
        seq![]
    } else {
        match s.last() {
            Some(x) => present(s.drop_last()).push(x),
            None => present(s.drop_last()),
        }
    }
}

/// The initial page counts of all decoded memories, in stream order.
pub open spec fn all_memories(ms: Seq<Vec<Option<u64>>>) -> Seq<u64>
    decreases ms.len(),
{
    if ms.len() == 0 {
        seq![]
    } else {
        all_memories(ms.drop_last()) + present(ms.last()@)
    }
}

/// The page count of the last decoded memory, or zero.
pub open spec fn last_memory_pages(ms: Seq<Vec<Option<u64>>>) -> u64 {
    let all = all_memories(ms);
    if all.len() == 0 { 0 } else { all.last() }
}

/// The names of all decoded exports, in stream order.
pub open spec fn all_exports(es: Seq<Vec<Option<String>>>) -> Seq<Seq<char>>
    decreases es.len(),
{
    if es.len() == 0 {
        seq![]
    } else {
        all_exports(es.drop_last()) + texts(present(es.last()@))
    }
}

/// How an import is listed: `module::name`.
pub open spec fn import_label(pair: (String, String)) -> Seq<char> {
    pair.0@ + "::"@ + pair.1@
}

/// The labels of all decoded imports, in stream order.
pub open spec fn all_imports(is: Seq<Vec<Option<(String, String)>>>) -> Seq<Seq<char>>
    decreases is.len(),
{
    if is.len() == 0 {
        seq![]
    } else {
        all_imports(is.drop_last()) + present(is.last()@).map_values(|p: (String, String)| import_label(p))
    }
}

/// The report on a module whose parser streams gave these facts. Decode
/// errors come first, then the policy error for a module without functions;
/// the module is valid exactly when there is no error.
pub open spec fn structural_report(
    facts: Seq<SectionFact>,
    ms: Seq<Vec<Option<u64>>>,
    es: Seq<Vec<Option<String>>>,
    is: Seq<Vec<Option<(String, String)>>>,
) -> StructuralView {
    let function_count = last_function_count(facts);
    let exports = all_exports(es);
    let errors = fact_errors(facts) + if function_count == 0 {
        seq!["No functions found in WASM binary"@]
    } else {
        seq![]
    };
    let warnings = fact_warnings(facts) + if exports.len() == 0 {
        seq!["No exported functions found"@]
    } else {
        seq![]
    };
    StructuralView {
        valid: errors.len() == 0,
        errors,
        warnings,
        function_count,
        table_count: last_table_count(facts),
        data_section_size: last_data_count(facts),
        memory_pages: last_memory_pages(ms),
        export_functions: exports,
        import_functions: all_imports(is),
    }
}


fn fact_summary(facts: &Vec<SectionFact>) -> (r: (Vec<String>, Vec<String>, u32, u32, u32))
    ensures
        texts(r.0@) == fact_errors(facts@),
        texts(r.1@) == fact_warnings(facts@),
        r.2 == last_function_count(facts@),
        r.3 == last_table_count(facts@),
        r.4 == last_data_count(facts@),
{
    let mut errors: Vec<String> = Vec::new();
    let mut warnings: Vec<String> = Vec::new();
    let mut functions: u32 = 0;
    let mut tables: u32 = 0;
    let mut data: u32 = 0;
    let mut i: usize = 0;
    while i < facts.len()
        invariant
            i <= facts@.len(),
            texts(errors@) == fact_errors(facts@.take(i as int)),
            texts(warnings@) == fact_warnings(facts@.take(i as int)),
            functions == last_function_count(facts@.take(i as int)),
            tables == last_table_count(facts@.take(i as int)),
            data == last_data_count(facts@.take(i as int)),
        decreases facts@.len() - i,
    {
        let ghost prefix = facts@.take(i + 1);
        assert(prefix.drop_last() =~= facts@.take(i as int));
        assert(prefix.last() == facts@[i as int]);
        match &facts[i] {
            SectionFact::Version(n) => {
                if *n != 1 {
                    let mut w = String::from_str("Unusual WASM version: ");
                    let digits = decimal_string(*n as u64);
                    w.append(digits.as_str());
                    proof { lemma_texts_push(warnings@, w); }
                    warnings.push(w);
                }
                assert(texts(warnings@) =~= fact_warnings(prefix));
            },
            SectionFact::Functions(n) => {
                functions = *n;
            },
            SectionFact::Tables(n) => {
                tables = *n;
            },
            SectionFact::DataSegments(n) => {
                data = *n;
            },
            SectionFact::CodeStart(n) => {
                if *n == 0 {
                    let w = String::from_str("No code section found - contract may be empty");
                    proof { lemma_texts_push(warnings@, w); }
                    warnings.push(w);
                }
                assert(texts(warnings@) =~= fact_warnings(prefix));
            },
            SectionFact::Other => {},
            SectionFact::Malformed(m) => {
                let mut e = String::from_str("WASM parsing error: ");
                e.append(m.as_str());
                proof { lemma_texts_push(errors@, e); }
                errors.push(e);
            },
        }
        assert(texts(warnings@) =~= fact_warnings(prefix));
        i += 1;
    }
    assert(facts@.take(facts@.len() as int) =~= facts@);
    (errors, warnings, functions, tables, data)
}


fn last_memory(ms: &Vec<Vec<Option<u64>>>) -> (r: u64)
    ensures
        r == last_memory_pages(ms@),
{
    let mut pages: u64 = 0;
    let ghost mut seen: Seq<u64> = seq![];
    let mut i: usize = 0;
    while i < ms.len()
        invariant
            i <= ms@.len(),
            seen == all_memories(ms@.take(i as int)),
            pages == (if seen.len() == 0 { 0 } else { seen.last() }),
        decreases ms@.len() - i,
    {
        let section = &ms[i];
        let mut j: usize = 0;
        while j < section.len()
            invariant
                i < ms@.len(),
                section == ms@[i as int],
                j <= section@.len(),
                seen == all_memories(ms@.take(i as int)) + present(section@.take(j as int)),
                pages == (if seen.len() == 0 { 0 } else { seen.last() }),
            decreases section@.len() - j,
        {
            assert(section@.take(j + 1).drop_last() =~= section@.take(j as int));
            if let Some(initial) = section[j] {
                pages = initial;
                proof { seen = seen.push(initial); }
            }
            j += 1;
        }
        assert(section@.take(section@.len() as int) =~= section@);
        assert(ms@.take(i + 1).drop_last() =~= ms@.take(i as int));
        i += 1;
    }
    assert(ms@.take(ms@.len() as int) =~= ms@);
    pages
}

fn exported_names(es: &Vec<Vec<Option<String>>>) -> (r: Vec<String>)
    ensures
        texts(r@) == all_exports(es@),
{
    let mut names: Vec<String> = Vec::new();
    let mut i: usize = 0;
    while i < es.len()
        invariant
            i <= es@.len(),
            texts(names@) == all_exports(es@.take(i as int)),
        decreases es@.len() - i,
    {
        let section = &es[i];
        let ghost before = names@;
        let mut j: usize = 0;
        while j < section.len()
            invariant
                i < es@.len(),
                section == es@[i as int],
                j <= section@.len(),
                texts(before) == all_exports(es@.take(i as int)),
                texts(names@) == texts(before) + texts(present(section@.take(j as int))),
            decreases section@.len() - j,
        {
            assert(section@.take(j + 1).drop_last() =~= section@.take(j as int));
            if let Some(name) = &section[j] {
                let n = name.clone();
                proof {
                    lemma_texts_push(names@, n);
                    lemma_texts_push(present(section@.take(j as int)), n);
                }
                names.push(n);
                assert(texts(names@) =~= texts(before) + texts(present(section@.take(j + 1))));
            }
            j += 1;
        }
        assert(section@.take(section@.len() as int) =~= section@);
        assert(es@.take(i + 1).drop_last() =~= es@.take(i as int));
        i += 1;
    }
    assert(es@.take(es@.len() as int) =~= es@);
    names
}

fn imported_names(is: &Vec<Vec<Option<(String, String)>>>) -> (r: Vec<String>)
    ensures
        texts(r@) == all_imports(is@),
{
    let mut names: Vec<String> = Vec::new();
    let mut i: usize = 0;
    while i < is.len()
        invariant
            i <= is@.len(),
            texts(names@) == all_imports(is@.take(i as int)),
        decreases is@.len() - i,
    {
        let section = &is[i];
        let ghost before = names@;
        let mut j: usize = 0;
        while j < section.len()
            invariant
                i < is@.len(),
                section == is@[i as int],
                j <= section@.len(),
                texts(before) == all_imports(is@.take(i as int)),
                texts(names@) == texts(before) + present(section@.take(j as int)).map_values(
                    |p: (String, String)| import_label(p),
                ),
            decreases section@.len() - j,
        {
            assert(section@.take(j + 1).drop_last() =~= section@.take(j as int));
            if let Some(pair) = &section[j] {
                let mut label = pair.0.clone();
                label.append("::");
                label.append(pair.1.as_str());
                proof { lemma_texts_push(names@, label); }
                names.push(label);
                assert(texts(names@) =~= texts(before) + present(section@.take(j + 1)).map_values(
                    |p: (String, String)| import_label(p),
                ));
            }
            j += 1;
        }
        assert(section@.take(section@.len() as int) =~= section@);
        assert(is@.take(i + 1).drop_last() =~= is@.take(i as int));
        i += 1;
    }
    assert(is@.take(is@.len() as int) =~= is@);
    names
}


/// Builds the structural report from the four parser streams of one module.
pub fn validate_sections(
    facts: &Vec<SectionFact>,
    memories: &Vec<Vec<Option<u64>>>,
    exports: &Vec<Vec<Option<String>>>,
    imports: &Vec<Vec<Option<(String, String)>>>,
) -> (r: WasmValidationResult)
    ensures
        r@ == structural_report(facts@, memories@, exports@, imports@),
{
    let (mut errors, mut warnings, function_count, table_count, data_section_size) = fact_summary(
        facts,
    );
    let memory_pages = last_memory(memories);
    let export_functions = exported_names(exports);
    let import_functions = imported_names(imports);
    if function_count == 0 {
        let e = String::from_str("No functions found in WASM binary");
        proof { lemma_texts_push(errors@, e); }
        errors.push(e);
    }
    if export_functions.len() == 0 {
        let w = String::from_str("No exported functions found");
        proof { lemma_texts_push(warnings@, w); }
        warnings.push(w);
    }
    let valid = errors.len() == 0;
    let r = WasmValidationResult {
        valid,
        errors,
        warnings,
        function_count,
        table_count,
        data_section_size,
        memory_pages,
        export_functions,
        import_functions,
    };
    assert(r@.errors =~= structural_report(facts@, memories@, exports@, imports@).errors);
    assert(r@.warnings =~= structural_report(facts@, memories@, exports@, imports@).warnings);
    r
}

/// Scans `wasm_bytes` section by section and reports its structure. Every
/// payload that the parser reaches is read; a decode error is recorded and
/// ends the stream, and the report is valid exactly when it holds no error.
pub fn validate_wasm(wasm_bytes: &[u8]) -> (r: WasmValidationResult)
    ensures
        r@ == structural_report(
            section_facts_of(wasm_bytes@),
            memory_initials_of(wasm_bytes@),
            export_names_of(wasm_bytes@),
            import_pairs_of(wasm_bytes@),
        ),
{
    let facts = section_facts(wasm_bytes);
    let memories = memory_initials(wasm_bytes);
    let exports = export_names(wasm_bytes);
    let imports = import_pairs(wasm_bytes);
    validate_sections(&facts, &memories, &exports, &imports)
}

} // verus!
