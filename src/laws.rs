//! Properties that hold of every input to the simulation, proved over the
//! specifications that the stages' contracts use.

use vstd::prelude::*;
use crate::gas::{COMPLEXITY_SCALE, complexity_units, total_cost};
use crate::performance::{WarningView, performance_warnings, listed_if};
use crate::simulation::{
    InputError, SimulationView, deploy_outcome, failure, input_error_view, module_simulation,
    structural_error, base64_decoding, encoding_error_view,
};
use crate::validator::{fact_errors, last_function_count, structural_report};
use crate::wasm::{SectionFact, section_facts_of, memory_initials_of, export_names_of, import_pairs_of};

verus! {

/// Determinism: two simulations of the same request, with the same
/// identifier verdict, give the same result in every field.
pub proof fn lemma_simulation_deterministic(
    wasm_binary: Seq<char>,
    contract_id_verdict: Result<(), String>,
    name: Seq<char>,
    r1: SimulationView,
    r2: SimulationView,
)
    requires
        deploy_outcome(wasm_binary, contract_id_verdict, name, r1),
        deploy_outcome(wasm_binary, contract_id_verdict, name, r2),
    ensures
        r1 == r2,
{
}

/// Fail-fast: text that is no valid encoding gives exactly one error, the
/// encoding error; text that decodes to no bytes gives exactly one error, the
/// empty-module error. Neither carries figures or warnings.
pub proof fn lemma_fail_fast(
    wasm_binary: Seq<char>,
    contract_id_verdict: Result<(), String>,
    name: Seq<char>,
    r: SimulationView,
)
    requires
        deploy_outcome(wasm_binary, contract_id_verdict, name, r),
    ensures
        base64_decoding(wasm_binary) is Err ==> {
            &&& r == failure(seq![encoding_error_view(base64_decoding(wasm_binary)->Err_0)])
            &&& r.errors.len() == 1
            &&& r.errors[0].code == "InvalidBase64"@
        },
        base64_decoding(wasm_binary) == Ok::<Seq<u8>, Seq<char>>(Seq::<u8>::empty()) ==> r == failure(
            seq![input_error_view(InputError::EmptyModule)],
        ),
{
}

/// A structural report on facts that declare no functions is invalid and
/// includes the no-functions error, whatever else the streams hold.
pub proof fn lemma_no_functions_invalid(
    facts: Seq<SectionFact>,
    ms: Seq<Vec<Option<u64>>>,
    es: Seq<Vec<Option<String>>>,
    is: Seq<Vec<Option<(String, String)>>>,
)
    requires
        last_function_count(facts) == 0,
    ensures
        !structural_report(facts, ms, es, is).valid,
        structural_report(facts, ms, es, is).errors.contains("No functions found in WASM binary"@),
{
    let r = structural_report(facts, ms, es, is);
    assert(r.errors[fact_errors(facts).len() as int] == "No functions found in WASM binary"@);
}

/// Zero functions: a module that declares no functions never simulates as
/// valid, and its result reports the no-functions error.
pub proof fn lemma_zero_functions_simulation(bytes: Seq<u8>)
    requires
        last_function_count(section_facts_of(bytes)) == 0,
    ensures
        !module_simulation(bytes).valid,
        module_simulation(bytes).errors.contains(structural_error("No functions found in WASM binary"@)),
{
    let facts = section_facts_of(bytes);
    let v = structural_report(
        facts,
        memory_initials_of(bytes),
        export_names_of(bytes),
        import_pairs_of(bytes),
    );
    lemma_no_functions_invalid(facts, memory_initials_of(bytes), export_names_of(bytes), import_pairs_of(bytes));
    let k = fact_errors(facts).len() as int;
    assert(v.errors[k] == "No functions found in WASM binary"@);
    assert(module_simulation(bytes).errors[k] == structural_error("No functions found in WASM binary"@));
}

/// Cost monotonicity: growing the module, or its function, table or memory
/// page count, with the data segments fixed, never lowers the total cost.
pub proof fn lemma_cost_monotonic(
    size1: nat,
    functions1: nat,
    tables1: nat,
    pages1: nat,
    size2: nat,
    functions2: nat,
    tables2: nat,
    pages2: nat,
    data_segments: nat,
)
    requires
        size1 <= size2,
        functions1 <= functions2,
        tables1 <= tables2,
        pages1 <= pages2,
    ensures
        total_cost(size1, functions1, tables1, pages1, data_segments) <= total_cost(
            size2,
            functions2,
            tables2,
            pages2,
            data_segments,
        ),
{
    assert(size1 / 1024 <= size2 / 1024) by (nonlinear_arith)
        requires size1 <= size2;
    assert((size1 / 1024) * 5000 <= (size2 / 1024) * 5000) by (nonlinear_arith)
        requires size1 / 1024 <= size2 / 1024;
    assert(functions1 * 1000 <= functions2 * 1000) by (nonlinear_arith)
        requires functions1 <= functions2;
    assert(tables1 * 2000 <= tables2 * 2000) by (nonlinear_arith)
        requires tables1 <= tables2;
    assert(pages1 * 10000 <= pages2 * 10000) by (nonlinear_arith)
        requires pages1 <= pages2;
}

/// Complexity bound: the complexity factor lies in `[0, 1]` for any
/// figures, zero and very large ones included.
pub proof fn lemma_complexity_bounded(size_bytes: nat, function_count: nat, table_count: nat, memory_pages: nat)
    ensures
        0 <= complexity_units(size_bytes, function_count, table_count, memory_pages) <= COMPLEXITY_SCALE,
{
}

/// The codes of a list of warnings.
pub open spec fn warning_codes(ws: Seq<WarningView>) -> Seq<Seq<char>> {
    ws.map_values(|w: WarningView| w.code)
}

/// Warning independence: each threshold warning appears exactly when its own
/// condition holds, whatever the other figures are, in a fixed order.
pub proof fn lemma_warning_independence(
    size_bytes: nat,
    memory_pages: nat,
    table_count: nat,
    import_count: nat,
    data_segments: nat,
)
    ensures
        warning_codes(performance_warnings(size_bytes, memory_pages, table_count, import_count, data_segments))
            == listed_if(size_bytes > 102400, "LARGE_WASM"@) + listed_if(memory_pages > 512, "HIGH_MEMORY"@) + listed_if(
            table_count > 10,
            "MANY_TABLES"@,
        ) + listed_if(import_count > 5, "MANY_IMPORTS"@) + listed_if(data_segments > 50, "LARGE_DATA"@),
{
    assert(warning_codes(performance_warnings(size_bytes, memory_pages, table_count, import_count, data_segments))
        =~= listed_if(size_bytes > 102400, "LARGE_WASM"@) + listed_if(memory_pages > 512, "HIGH_MEMORY"@) + listed_if(
        table_count > 10,
        "MANY_TABLES"@,
    ) + listed_if(import_count > 5, "MANY_IMPORTS"@) + listed_if(data_segments > 50, "LARGE_DATA"@));
}

} // verus!
