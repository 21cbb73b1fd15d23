//! The performance analyzer: execution and memory estimates, threshold
//! warnings, and a complexity tier for each exported function.

use vstd::prelude::*;
use vstd::string::*;
use crate::abi::{AbiExtractionResult, AbiView, FunctionView, function_views};
use crate::decimal::{decimal, decimal_string};
use crate::text::{contains_text, starts_with_text, str_contains, str_equal, str_starts_with, texts};
use crate::validator::{StructuralView, WasmValidationResult};

verus! {

/// Milliseconds of estimated execution per kilobyte of module.
pub const BASE_MS_PER_KB: u64 = 1;
/// Kilobytes in one memory page.
pub const KB_PER_PAGE: u64 = 64;

/// One threshold warning.
#[derive(Debug, Clone)]
pub struct PerformanceWarning {
    pub code: String,
    pub message: String,
    pub severity: String,
}

/// What a `PerformanceWarning` says, over character sequences.
pub struct WarningView {
    pub code: Seq<char>,
    pub message: Seq<char>,
    pub severity: Seq<char>,
}

impl View for PerformanceWarning {
    type V = WarningView;

    open spec fn view(&self) -> WarningView {
        WarningView { code: self.code@, message: self.message@, severity: self.severity@ }
    }
}

/// The views of a list of warnings.
pub open spec fn warning_views(v: Seq<PerformanceWarning>) -> Seq<WarningView> {
    v.map_values(|w: PerformanceWarning| w@)
}

/// The complexity tier of one exported function.
#[derive(Debug, Clone)]
pub struct FunctionAnalysis {
    pub name: String,
    pub complexity: String,
    pub recommendation: Option<String>,
}

/// What a `FunctionAnalysis` says, over character sequences.
pub struct AnalysisView {
    pub name: Seq<char>,
    pub complexity: Seq<char>,
    pub recommendation: Option<Seq<char>>,
}

impl View for FunctionAnalysis {
    type V = AnalysisView;

    open spec fn view(&self) -> AnalysisView {
        AnalysisView {
            name: self.name@,
            complexity: self.complexity@,
            recommendation: crate::abi::opt_text(self.recommendation),
        }
    }
}

/// The views of a list of analyses.
pub open spec fn analysis_views(v: Seq<FunctionAnalysis>) -> Seq<AnalysisView> {
    v.map_values(|a: FunctionAnalysis| a@)
}

/// The performance report on one module.
#[derive(Debug, Clone)]
pub struct PerformanceAnalysisResult {
    pub estimated_execution_time_ms: u64,
    pub memory_estimate_kb: u128,
    pub warnings: Vec<PerformanceWarning>,
    pub function_analysis: Vec<FunctionAnalysis>,
}

/// What a `PerformanceAnalysisResult` says, over character sequences.
pub struct PerformanceView {
    pub estimated_execution_time_ms: u64,
    pub memory_estimate_kb: u128,
    pub warnings: Seq<WarningView>,
    pub function_analysis: Seq<AnalysisView>,
}

impl View for PerformanceAnalysisResult {
    type V = PerformanceView;

    open spec fn view(&self) -> PerformanceView {
        PerformanceView {
            estimated_execution_time_ms: self.estimated_execution_time_ms,
            memory_estimate_kb: self.memory_estimate_kb,
            warnings: warning_views(self.warnings@),
            function_analysis: analysis_views(self.function_analysis@),
        }
    }
}

/// The first preview record with this name, if any.
pub open spec fn first_named(fns: Seq<FunctionView>, name: Seq<char>) -> Option<FunctionView>
    decreases fns.len(),
{
    if fns.len() == 0 {
        None
    } else if fns[0].name == name {
        Some(fns[0])
    } else {
        first_named(fns.drop_first(), name)
    }
}

/// The tier and advice for an exported function, by the first rule that
/// applies: an accessor-like name is `low`; an iterating or batching name is
/// `high`, with advice to paginate; a name in the preview with more than five
/// parameters is `medium`, with advice to group them; any other name in the
/// preview is `low`; anything else is `unknown`.
pub open spec fn classify(name: Seq<char>, fns: Seq<FunctionView>) -> AnalysisView {
    if starts_with_text(name, "get_"@) || contains_text(name, "_view"@) {
        AnalysisView { name, complexity: "low"@, recommendation: None }
    } else if contains_text(name, "iterate"@) || contains_text(name, "batch"@) {
        AnalysisView {
            name,
            complexity: "high"@,
            recommendation: Some("Consider adding pagination for large datasets"@),
        }
    } else {
        match first_named(fns, name) {
            Some(f) => if f.param_count > 5 {
                AnalysisView {
                    name,
                    complexity: "medium"@,
                    recommendation: Some("Consider grouping parameters into structs"@),
                }
            } else {
                AnalysisView { name, complexity: "low"@, recommendation: None }
            },
            None => AnalysisView { name, complexity: "unknown"@, recommendation: None },
        }
    }
}

/// A one-element sequence when `c` holds, else an empty one.
pub open spec fn listed_if<T>(c: bool, x: T) -> Seq<T> {
    if c { seq![x] } else { seq![] }
}

/// The threshold warnings for these figures, each tested on its own, in a
/// fixed order: size over 100 KB, over 512 memory pages, over 10 tables, over
/// 5 imports, over 50 data segments.
pub open spec fn performance_warnings(
    size_bytes: nat,
    memory_pages: nat,
    table_count: nat,
    import_count: nat,
    data_segments: nat,
) -> Seq<WarningView> {
    listed_if(size_bytes > 102400, WarningView {
        code: "LARGE_WASM"@,
        message: "WASM size is "@ + decimal(size_bytes / 1024) + " KB - consider optimizing"@,
        severity: "medium"@,
    }) + listed_if(memory_pages > 512, WarningView {
        code: "HIGH_MEMORY"@,
        message: "Memory allocation is "@ + decimal(memory_pages) + " pages - may exceed typical limits"@,
        severity: "high"@,
    }) + listed_if(table_count > 10, WarningView {
        code: "MANY_TABLES"@,
        message: decimal(table_count) + " tables detected - may impact performance"@,
        severity: "low"@,
    }) + listed_if(import_count > 5, WarningView {
        code: "MANY_IMPORTS"@,
        message: decimal(import_count) + " imported functions - consider bundling"@,
        severity: "low"@,
    }) + listed_if(data_segments > 50, WarningView {
        code: "LARGE_DATA"@,
        message: "Large data section ("@ + decimal(data_segments) + " entries) - consider lazy loading"@,
        severity: "medium"@,
    })
}

/// The performance report on a module of `size_bytes` bytes with this
/// structure and preview.
pub open spec fn performance_report(size_bytes: nat, v: StructuralView, abi: AbiView) -> PerformanceView {
    let kb = size_bytes / 1024;
    PerformanceView {
        estimated_execution_time_ms: ((if kb > 1 { kb } else { 1 }) * BASE_MS_PER_KB) as u64,
        memory_estimate_kb: (v.memory_pages * KB_PER_PAGE) as u128,
        warnings: performance_warnings(
            size_bytes,
            v.memory_pages as nat,
            v.table_count as nat,
            v.import_functions.len(),
            v.data_section_size as nat,
        ),
        function_analysis: v.export_functions.map_values(|n: Seq<char>| classify(n, abi.functions)),
    }
}


fn find_named(fns: &Vec<crate::abi::FunctionInfo>, name: &str) -> (r: Option<u32>)
    ensures
        match first_named(function_views(fns@), name@) {
            Some(f) => r == Some(f.param_count),
            None => r is None,
        },
{
    let ghost all = function_views(fns@);
    assert(all.skip(0) =~= all);
    let mut i: usize = 0;
    while i < fns.len()
        invariant
            i <= fns@.len(),
            all == function_views(fns@),
            first_named(all, name@) == first_named(all.skip(i as int), name@),
        decreases fns@.len() - i,
    {
        let ghost rest = all.skip(i as int);
        assert(rest[0] == fns@[i as int]@);
        assert(rest.drop_first() =~= all.skip(i + 1));
        if str_equal(fns[i].name.as_str(), name) {
            return Some(fns[i].param_count);
        }
        i += 1;
    }
    assert(all.skip(i as int).len() == 0);
    None
}

/// The tier and advice for the exported function `func_name`, given the
/// interface preview.
pub fn analyze_function(func_name: &str, abi_result: &AbiExtractionResult) -> (r: FunctionAnalysis)
    ensures
        r@ == classify(func_name@, abi_result@.functions),
{
    let name = String::from_str(func_name);
    if str_starts_with(func_name, "get_") || str_contains(func_name, "_view") {
        FunctionAnalysis { name, complexity: String::from_str("low"), recommendation: None }
    } else if str_contains(func_name, "iterate") || str_contains(func_name, "batch") {
        FunctionAnalysis {
            name,
            complexity: String::from_str("high"),
            recommendation: Some(String::from_str("Consider adding pagination for large datasets")),
        }
    } else {
        match find_named(&abi_result.functions, func_name) {
            Some(params) => if params > 5 {
                FunctionAnalysis {
                    name,
                    complexity: String::from_str("medium"),
                    recommendation: Some(String::from_str("Consider grouping parameters into structs")),
                }
            } else {
                FunctionAnalysis { name, complexity: String::from_str("low"), recommendation: None }
            },
            None => FunctionAnalysis { name, complexity: String::from_str("unknown"), recommendation: None },
        }
    }
}

fn warning(code: &str, message: String, severity: &str) -> (r: PerformanceWarning)
    ensures
        r@ == (WarningView { code: code@, message: message@, severity: severity@ }),
{
    PerformanceWarning { code: String::from_str(code), message, severity: String::from_str(severity) }
}

fn framed(before: &str, n: u64, after: &str) -> (r: String)
    ensures
        r@ == before@ + decimal(n as nat) + after@,
{
    let mut s = String::from_str(before);
    let digits = decimal_string(n);
    s.append(digits.as_str());
    s.append(after);
    s
}

/// The threshold warnings for these figures, in their fixed order.
pub fn threshold_warnings(
    size_bytes: u64,
    memory_pages: u64,
    table_count: u32,
    import_count: u64,
    data_segments: u32,
) -> (r: Vec<PerformanceWarning>)
    ensures
        warning_views(r@) == performance_warnings(
            size_bytes as nat,
            memory_pages as nat,
            table_count as nat,
            import_count as nat,
            data_segments as nat,
        ),
{
    let mut ws: Vec<PerformanceWarning> = Vec::new();
    if size_bytes > 102400 {
        ws.push(warning("LARGE_WASM", framed("WASM size is ", size_bytes / 1024, " KB - consider optimizing"), "medium"));
    }
    let ghost w1 = warning_views(ws@);
    if memory_pages > 512 {
        ws.push(warning("HIGH_MEMORY", framed("Memory allocation is ", memory_pages, " pages - may exceed typical limits"), "high"));
    }
    let ghost w2 = warning_views(ws@);
    if table_count > 10 {
        ws.push(warning("MANY_TABLES", framed("", table_count as u64, " tables detected - may impact performance"), "low"));
    }
    let ghost w3 = warning_views(ws@);
    if import_count > 5 {
        ws.push(warning("MANY_IMPORTS", framed("", import_count, " imported functions - consider bundling"), "low"));
    }
    let ghost w4 = warning_views(ws@);
    if data_segments > 50 {
        ws.push(warning("LARGE_DATA", framed("Large data section (", data_segments as u64, " entries) - consider lazy loading"), "medium"));
    }
    proof { reveal_strlit(""); }
    assert(warning_views(ws@) =~= performance_warnings(
        size_bytes as nat,
        memory_pages as nat,
        table_count as nat,
        import_count as nat,
        data_segments as nat,
    ));
    ws
}


/// The performance report on a module from its bytes, its structural report
/// and its interface preview: one analysis per export, in export order.
pub fn analyze_performance(
    wasm_bytes: &[u8],
    validation_result: &WasmValidationResult,
    abi_result: &AbiExtractionResult,
) -> (r: PerformanceAnalysisResult)
    ensures
        r@ == performance_report(wasm_bytes@.len(), validation_result@, abi_result@),
{
    let size_bytes = wasm_bytes.len() as u64;
    let kb: u64 = size_bytes / 1024;
    let estimated_execution_time_ms: u64 = BASE_MS_PER_KB * if kb > 1 { kb } else { 1 };
    let memory_estimate_kb: u128 = validation_result.memory_pages as u128 * KB_PER_PAGE as u128;
    let warnings = threshold_warnings(
        size_bytes,
        validation_result.memory_pages,
        validation_result.table_count,
        validation_result.import_functions.len() as u64,
        validation_result.data_section_size,
    );
    let exports = &validation_result.export_functions;
    let ghost names = texts(exports@);
    let mut function_analysis: Vec<FunctionAnalysis> = Vec::new();
    let mut i: usize = 0;
    while i < exports.len()
        invariant
            i <= exports@.len(),
            names == texts(exports@),
            analysis_views(function_analysis@) == names.take(i as int).map_values(
                |n: Seq<char>| classify(n, abi_result@.functions),
            ),
        decreases exports@.len() - i,
    {
        let a = analyze_function(exports[i].as_str(), abi_result);
        let ghost before = function_analysis@;
        function_analysis.push(a);
        assert(analysis_views(function_analysis@) =~= analysis_views(before).push(a@));
        assert(names.take(i + 1) =~= names.take(i as int).push(names[i as int]));
        assert(analysis_views(function_analysis@) =~= names.take(i + 1).map_values(
            |n: Seq<char>| classify(n, abi_result@.functions),
        ));
        i += 1;
    }
    assert(names.take(names.len() as int) =~= names);
    PerformanceAnalysisResult { estimated_execution_time_ms, memory_estimate_kb, warnings, function_analysis }
}

} // verus!
