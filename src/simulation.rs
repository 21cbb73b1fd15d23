//! The deployment simulation: decodes the request's module, runs the
//! structural, interface, cost and performance stages on it, and merges their
//! findings into one result.

use vstd::prelude::*;
use vstd::string::*;
use base64::Engine;
use crate::abi::{AbiExtractionResult, AbiView, FunctionInfo, FunctionView, function_views, preview_of, utf8_lossy_of, extract_abi};
use crate::decimal::{decimal, decimal_string};
use crate::gas::{GasEstimationResult, gas_estimate, estimate_gas};
use crate::performance::{PerformanceView, WarningView, warning_views, performance_report, analyze_performance};
use crate::validator::{StructuralView, WasmValidationResult, structural_report, validate_wasm};
use crate::wasm::{section_facts_of, memory_initials_of, export_names_of, import_pairs_of};

verus! {

/// What the standard base64 alphabet, with padding, makes of `text`: the
/// bytes it encodes, or the decoder's description of why it is not such an
/// encoding.
pub uninterp spec fn base64_decoding(text: Seq<char>) -> Result<Seq<u8>, Seq<char>>;

/// Relies on base64's `STANDARD` engine and its `decode`, and on the
/// `Display` impl of its `DecodeError`: the bytes that the text encodes, or
/// the description of the decode error. Both depend on the text alone.
#[verifier::external_body]
fn decode_base64(text: &str) -> (r: Result<Vec<u8>, String>)
    ensures
        match r {
            Ok(bytes) => base64_decoding(text@) == Ok::<Seq<u8>, Seq<char>>(bytes@),
            Err(description) => base64_decoding(text@) == Err::<Seq<u8>, Seq<char>>(description@),
        },
{
    base64::engine::general_purpose::STANDARD.decode(text).map_err(|e| e.to_string())
}

/// A simulation request: the module as base64 text, the contract's
/// identifier and its display name.
#[derive(Debug, Clone)]
pub struct SimulateDeployRequest {
    pub wasm_binary: String,
    pub contract_id: String,
    pub name: String,
}

/// One error of a simulation, tied to the request field it concerns.
#[derive(Debug, Clone)]
pub struct SimulationError {
    pub code: String,
    pub message: String,
    pub field: Option<String>,
}

/// What a `SimulationError` says, over character sequences.
pub struct ErrorView {
    pub code: Seq<char>,
    pub message: Seq<char>,
    pub field: Option<Seq<char>>,
}

impl View for SimulationError {
    type V = ErrorView;

    open spec fn view(&self) -> ErrorView {
        ErrorView { code: self.code@, message: self.message@, field: crate::abi::opt_text(self.field) }
    }
}

/// One advisory finding of a simulation.
#[derive(Debug, Clone)]
pub struct SimulationWarning {
    pub code: String,
    pub message: String,
    pub severity: Option<String>,
}

/// What a `SimulationWarning` says, over character sequences.
pub struct NoticeView {
    pub code: Seq<char>,
    pub message: Seq<char>,
    pub severity: Option<Seq<char>>,
}

impl View for SimulationWarning {
    type V = NoticeView;

    open spec fn view(&self) -> NoticeView {
        NoticeView { code: self.code@, message: self.message@, severity: crate::abi::opt_text(self.severity) }
    }
}

/// The execution and size figures of a simulation.
#[derive(Debug, Clone, Copy, PartialEq, Eq)]
pub struct PerformanceMetrics {
    pub estimated_execution_time_ms: u64,
    pub memory_estimate_kb: u128,
    pub function_count: u32,
    pub table_size_bytes: u64,
    pub data_section_bytes: u32,
}

/// How much the interface preview found.
#[derive(Debug, Clone, Copy, PartialEq, Eq)]
pub struct AbiPreview {
    pub function_count: usize,
    pub type_count: usize,
}

/// The outcome of one simulation. When `valid` is false, the cost and
/// performance figures are zero placeholders, not estimates.
#[derive(Debug, Clone)]
pub struct SimulationResult {
    pub valid: bool,
    pub errors: Vec<SimulationError>,
    pub warnings: Vec<SimulationWarning>,
    pub gas_estimate: GasEstimationResult,
    pub performance_metrics: PerformanceMetrics,
    pub abi_preview: Option<AbiPreview>,
    pub contract_functions: Option<Vec<FunctionInfo>>,
}

/// What a `SimulationResult` says, over character sequences.
pub struct SimulationView {
    pub valid: bool,
    pub errors: Seq<ErrorView>,
    pub warnings: Seq<NoticeView>,
    pub gas_estimate: GasEstimationResult,
    pub performance_metrics: PerformanceMetrics,
    pub abi_preview: Option<AbiPreview>,
    pub contract_functions: Option<Seq<FunctionView>>,
}

impl View for SimulationResult {
    type V = SimulationView;

    open spec fn view(&self) -> SimulationView {
        SimulationView {
            valid: self.valid,
            errors: self.errors@.map_values(|e: SimulationError| e@),
            warnings: self.warnings@.map_values(|w: SimulationWarning| w@),
            gas_estimate: self.gas_estimate,
            performance_metrics: self.performance_metrics,
            abi_preview: self.abi_preview,
            contract_functions: match self.contract_functions {
                Some(fs) => Some(function_views(fs@)),
                None => None,
            },
        }
    }
}

/// The cost figures of a failed simulation.
pub open spec fn zero_gas() -> GasEstimationResult {
    GasEstimationResult {
        total_cost_stroops: 0,
        deployment_cost_stroops: 0,
        storage_cost_stroops: 0,
        wasm_size_bytes: 0,
        complexity_units: 0,
    }
}

/// The performance figures of a failed simulation.
pub open spec fn zero_metrics() -> PerformanceMetrics {
    PerformanceMetrics {
        estimated_execution_time_ms: 0,
        memory_estimate_kb: 0,
        function_count: 0,
        table_size_bytes: 0,
        data_section_bytes: 0,
    }
}

/// A failed simulation with these errors: no warnings, zero figures, no
/// preview.
pub open spec fn failure(errors: Seq<ErrorView>) -> SimulationView {
    SimulationView {
        valid: false,
        errors,
        warnings: seq![],
        gas_estimate: zero_gas(),
        performance_metrics: zero_metrics(),
        abi_preview: None,
        contract_functions: None,
    }
}

/// The error entry for one structural error.
pub open spec fn structural_error(message: Seq<char>) -> ErrorView {
    ErrorView { code: "WasmValidationError"@, message, field: Some("wasm_binary"@) }
}

/// The warning entry for one structural warning.
pub open spec fn structural_notice(message: Seq<char>) -> NoticeView {
    NoticeView { code: "WasmWarning"@, message, severity: Some("low"@) }
}

/// The warning entry for one performance warning.
pub open spec fn performance_notice(w: WarningView) -> NoticeView {
    NoticeView { code: w.code, message: w.message, severity: Some(w.severity) }
}

/// The merged result for a module of `size_bytes` bytes whose stages gave
/// this structure, preview, cost estimate and performance report. An invalid
/// structure gives one error per structural error and nothing else; a valid
/// one gives the structural warnings, then the performance warnings, the
/// figures, and the preview where it found anything.
pub open spec fn merged_result(
    v: StructuralView,
    abi: AbiView,
    gas: GasEstimationResult,
    perf: PerformanceView,
) -> SimulationView {
    if !v.valid {
        failure(v.errors.map_values(|e: Seq<char>| structural_error(e)))
    } else {
        SimulationView {
            valid: true,
            errors: seq![],
            warnings: v.warnings.map_values(|w: Seq<char>| structural_notice(w)) + perf.warnings.map_values(
                |w: WarningView| performance_notice(w),
            ),
            gas_estimate: gas,
            performance_metrics: PerformanceMetrics {
                estimated_execution_time_ms: perf.estimated_execution_time_ms,
                memory_estimate_kb: perf.memory_estimate_kb,
                function_count: v.function_count,
                table_size_bytes: (v.table_count * 8) as u64,
                data_section_bytes: v.data_section_size,
            },
            abi_preview: if abi.types.len() > 0 {
                Some(AbiPreview { function_count: abi.functions.len() as usize, type_count: abi.types.len() as usize })
            } else {
                None
            },
            contract_functions: if abi.functions.len() > 0 {
                Some(abi.functions)
            } else {
                None
            },
        }
    }
}

/// The simulation of a module given as bytes: every stage is a function of
/// the bytes alone.
pub open spec fn module_simulation(bytes: Seq<u8>) -> SimulationView {
    let v = structural_report(
        section_facts_of(bytes),
        memory_initials_of(bytes),
        export_names_of(bytes),
        import_pairs_of(bytes),
    );
    let abi = preview_of(utf8_lossy_of(bytes));
    merged_result(
        v,
        abi,
        gas_estimate(bytes.len() as u64, v.function_count, v.table_count, v.memory_pages, v.data_section_size),
        performance_report(bytes.len(), v, abi),
    )
}


fn zero_metrics_value() -> (r: PerformanceMetrics)
    ensures
        r == zero_metrics(),
{
    PerformanceMetrics {
        estimated_execution_time_ms: 0,
        memory_estimate_kb: 0,
        function_count: 0,
        table_size_bytes: 0,
        data_section_bytes: 0,
    }
}

fn zero_gas_value() -> (r: GasEstimationResult)
    ensures
        r == zero_gas(),
{
    GasEstimationResult {
        total_cost_stroops: 0,
        deployment_cost_stroops: 0,
        storage_cost_stroops: 0,
        wasm_size_bytes: 0,
        complexity_units: 0,
    }
}

fn failed_with(errors: Vec<SimulationError>) -> (r: SimulationResult)
    ensures
        r@ == failure(errors@.map_values(|e: SimulationError| e@)),
{
    let r = SimulationResult {
        valid: false,
        errors,
        warnings: Vec::new(),
        gas_estimate: zero_gas_value(),
        performance_metrics: zero_metrics_value(),
        abi_preview: None,
        contract_functions: None,
    };
    assert(r@.warnings =~= seq![]);
    r
}

fn structural_errors(v: &WasmValidationResult) -> (r: Vec<SimulationError>)
    ensures
        r@.map_values(|e: SimulationError| e@) == v@.errors.map_values(|e: Seq<char>| structural_error(e)),
{
    let mut out: Vec<SimulationError> = Vec::new();
    let mut i: usize = 0;
    while i < v.errors.len()
        invariant
            i <= v.errors@.len(),
            out@.map_values(|e: SimulationError| e@) == v@.errors.take(i as int).map_values(
                |e: Seq<char>| structural_error(e),
            ),
        decreases v.errors@.len() - i,
    {
        let e = SimulationError {
            code: String::from_str("WasmValidationError"),
            message: v.errors[i].clone(),
            field: Some(String::from_str("wasm_binary")),
        };
        assert(e@ == structural_error(v@.errors[i as int]));
        let ghost before = out@;
        out.push(e);
        assert(out@.map_values(|e: SimulationError| e@) =~= before.map_values(|e: SimulationError| e@).push(e@));
        assert(v@.errors.take(i + 1) =~= v@.errors.take(i as int).push(v@.errors[i as int]));
        assert(out@.map_values(|e: SimulationError| e@) =~= v@.errors.take(i + 1).map_values(
            |e: Seq<char>| structural_error(e),
        ));
        i += 1;
    }
    assert(v@.errors.take(v@.errors.len() as int) =~= v@.errors);
    out
}

fn merged_warnings(v: &WasmValidationResult, perf: &crate::performance::PerformanceAnalysisResult) -> (r: Vec<SimulationWarning>)
    ensures
        r@.map_values(|w: SimulationWarning| w@) == v@.warnings.map_values(|w: Seq<char>| structural_notice(w))
            + perf@.warnings.map_values(|w: WarningView| performance_notice(w)),
{
    let mut out: Vec<SimulationWarning> = Vec::new();
    let mut i: usize = 0;
    while i < v.warnings.len()
        invariant
            i <= v.warnings@.len(),
            out@.map_values(|w: SimulationWarning| w@) == v@.warnings.take(i as int).map_values(
                |w: Seq<char>| structural_notice(w),
            ),
        decreases v.warnings@.len() - i,
    {
        let w = SimulationWarning {
            code: String::from_str("WasmWarning"),
            message: v.warnings[i].clone(),
            severity: Some(String::from_str("low")),
        };
        assert(w@ == structural_notice(v@.warnings[i as int]));
        let ghost before = out@;
        out.push(w);
        assert(out@.map_values(|w: SimulationWarning| w@) =~= before.map_values(|w: SimulationWarning| w@).push(w@));
        assert(v@.warnings.take(i + 1) =~= v@.warnings.take(i as int).push(v@.warnings[i as int]));
        assert(out@.map_values(|w: SimulationWarning| w@) =~= v@.warnings.take(i + 1).map_values(
            |w: Seq<char>| structural_notice(w),
        ));
        i += 1;
    }
    assert(v@.warnings.take(v@.warnings.len() as int) =~= v@.warnings);
    let ghost head = out@.map_values(|w: SimulationWarning| w@);
    let pw = &perf.warnings;
    let mut j: usize = 0;
    while j < pw.len()
        invariant
            j <= pw@.len(),
            head == v@.warnings.map_values(|w: Seq<char>| structural_notice(w)),
            perf@.warnings == warning_views(pw@),
            out@.map_values(|w: SimulationWarning| w@) == head + perf@.warnings.take(j as int).map_values(
                |w: WarningView| performance_notice(w),
            ),
        decreases pw@.len() - j,
    {
        let w = SimulationWarning {
            code: pw[j].code.clone(),
            message: pw[j].message.clone(),
            severity: Some(pw[j].severity.clone()),
        };
        assert(w@ == performance_notice(perf@.warnings[j as int]));
        let ghost before = out@;
        out.push(w);
        assert(out@.map_values(|w: SimulationWarning| w@) =~= before.map_values(|w: SimulationWarning| w@).push(w@));
        assert(perf@.warnings.take(j + 1) =~= perf@.warnings.take(j as int).push(perf@.warnings[j as int]));
        assert(out@.map_values(|w: SimulationWarning| w@) =~= head + perf@.warnings.take(j + 1).map_values(
            |w: WarningView| performance_notice(w),
        ));
        j += 1;
    }
    assert(perf@.warnings.take(pw@.len() as int) =~= perf@.warnings);
    out
}

/// Merges the stage results for one module into the simulation result.
pub fn merge_results(
    validation_result: &WasmValidationResult,
    abi_result: AbiExtractionResult,
    gas_result: GasEstimationResult,
    performance_result: &crate::performance::PerformanceAnalysisResult,
) -> (r: SimulationResult)
    ensures
        r@ == merged_result(validation_result@, abi_result@, gas_result, performance_result@),
{
    if !validation_result.valid {
        let errors = structural_errors(validation_result);
        return failed_with(errors);
    }
    let warnings = merged_warnings(validation_result, performance_result);
    let function_count = abi_result.functions.len();
    let type_count = abi_result.types.len();
    let abi_preview = if type_count > 0 {
        Some(AbiPreview { function_count, type_count })
    } else {
        None
    };
    let contract_functions = if function_count > 0 {
        Some(abi_result.functions)
    } else {
        None
    };
    let r = SimulationResult {
        valid: true,
        errors: Vec::new(),
        warnings,
        gas_estimate: gas_result,
        performance_metrics: PerformanceMetrics {
            estimated_execution_time_ms: performance_result.estimated_execution_time_ms,
            memory_estimate_kb: performance_result.memory_estimate_kb,
            function_count: validation_result.function_count,
            table_size_bytes: validation_result.table_count as u64 * 8,
            data_section_bytes: validation_result.data_section_size,
        },
        abi_preview,
        contract_functions,
    };
    assert(r@.errors =~= seq![]);
    r
}

/// Runs every stage on a decoded module and merges the results.
pub fn simulate_module(wasm_bytes: &[u8]) -> (r: SimulationResult)
    ensures
        r@ == module_simulation(wasm_bytes@),
{
    let validation_result = validate_wasm(wasm_bytes);
    if !validation_result.valid {
        let errors = structural_errors(&validation_result);
        return failed_with(errors);
    }
    let abi_result = extract_abi(wasm_bytes);
    let gas_result = estimate_gas(wasm_bytes, &validation_result);
    let performance_result = analyze_performance(wasm_bytes, &validation_result, &abi_result);
    merge_results(&validation_result, abi_result, gas_result, &performance_result)
}


/// Soft wall-clock budget of a simulation, in milliseconds, below the
/// caller's hard limit of five seconds.
pub const SOFT_BUDGET_MS: u64 = 4000;

/// Why a request was refused before any structural work.
#[derive(Debug, Clone)]
pub enum InputError {
    /// The module text is not valid base64; the decoder's description.
    InvalidEncoding(String),
    /// The module decodes to no bytes.
    EmptyModule,
    /// The identifier validator refused the contract identifier; its reason.
    InvalidIdentifier(String),
    /// The display name is empty.
    InvalidName,
}

/// The error entry that reports a module text that is no valid encoding,
/// with the decoder's description.
pub open spec fn encoding_error_view(description: Seq<char>) -> ErrorView {
    ErrorView {
        code: "InvalidBase64"@,
        message: "Failed to decode base64 WASM binary: "@ + description,
        field: Some("wasm_binary"@),
    }
}

/// The error entry that reports an input error.
pub open spec fn input_error_view(e: InputError) -> ErrorView {
    match e {
        InputError::InvalidEncoding(m) => encoding_error_view(m@),
        InputError::EmptyModule => ErrorView {
            code: "EmptyWasm"@,
            message: "WASM binary is empty"@,
            field: Some("wasm_binary"@),
        },
        InputError::InvalidIdentifier(m) => ErrorView {
            code: "InvalidContractId"@,
            message: m@,
            field: Some("contract_id"@),
        },
        InputError::InvalidName => ErrorView {
            code: "InvalidName"@,
            message: "Contract name cannot be empty"@,
            field: Some("name"@),
        },
    }
}

impl InputError {
    /// The error entry that reports this error.
    pub fn to_simulation_error(&self) -> (r: SimulationError)
        ensures
            r@ == input_error_view(*self),
    {
        match self {
            InputError::InvalidEncoding(m) => {
                let mut message = String::from_str("Failed to decode base64 WASM binary: ");
                message.append(m.as_str());
                SimulationError {
                    code: String::from_str("InvalidBase64"),
                    message,
                    field: Some(String::from_str("wasm_binary")),
                }
            },
            InputError::EmptyModule => SimulationError {
                code: String::from_str("EmptyWasm"),
                message: String::from_str("WASM binary is empty"),
                field: Some(String::from_str("wasm_binary")),
            },
            InputError::InvalidIdentifier(m) => SimulationError {
                code: String::from_str("InvalidContractId"),
                message: m.clone(),
                field: Some(String::from_str("contract_id")),
            },
            InputError::InvalidName => SimulationError {
                code: String::from_str("InvalidName"),
                message: String::from_str("Contract name cannot be empty"),
                field: Some(String::from_str("name")),
            },
        }
    }
}

/// Checks a request in order, stopping at the first failure: the module text
/// must decode, the module must not be empty, the identifier validator's
/// verdict must be `Ok`, and the name must not be empty. On success, the
/// decoded module.
pub fn check_request(
    req: &SimulateDeployRequest,
    contract_id_verdict: &Result<(), String>,
) -> (r: Result<Vec<u8>, InputError>)
    ensures
        match base64_decoding(req.wasm_binary@) {
            Err(description) => r matches Err(InputError::InvalidEncoding(m)) && m@ == description,
            Ok(bytes) => if bytes.len() == 0 {
                r matches Err(InputError::EmptyModule)
            } else if contract_id_verdict is Err {
                r matches Err(InputError::InvalidIdentifier(m)) && m == contract_id_verdict->Err_0
            } else if req.name@.len() == 0 {
                r matches Err(InputError::InvalidName)
            } else {
                r matches Ok(b) && b@ == bytes
            },
        },
{
    let bytes = match decode_base64(req.wasm_binary.as_str()) {
        Ok(b) => b,
        Err(e) => {
            return Err(InputError::InvalidEncoding(e));
        },
    };
    if bytes.len() == 0 {
        return Err(InputError::EmptyModule);
    }
    if let Err(m) = contract_id_verdict {
        return Err(InputError::InvalidIdentifier(m.clone()));
    }
    if req.name.as_str().unicode_len() == 0 {
        return Err(InputError::InvalidName);
    }
    Ok(bytes)
}

/// The simulation of a request whose module text decodes to `bytes`, whose
/// identifier the validator judged `verdict` (its reason on refusal), and
/// whose display name is `name`.
pub open spec fn request_simulation(bytes: Seq<u8>, verdict: Option<String>, name: Seq<char>) -> SimulationView {
    if bytes.len() == 0 {
        failure(seq![input_error_view(InputError::EmptyModule)])
    } else if verdict is Some {
        failure(seq![input_error_view(InputError::InvalidIdentifier(verdict->Some_0))])
    } else if name.len() == 0 {
        failure(seq![input_error_view(InputError::InvalidName)])
    } else {
        module_simulation(bytes)
    }
}

/// The validator's refusal reason, if it refused.
pub open spec fn refusal(verdict: Result<(), String>) -> Option<String> {
    match verdict {
        Ok(_) => None,
        Err(m) => Some(m),
    }
}

/// What simulating a request with this module text, identifier verdict and
/// name gives: where the text is no valid encoding, a failure with one
/// `InvalidBase64` entry that carries the decoder's description; otherwise
/// `request_simulation` of the decoded module.
pub open spec fn deploy_outcome(
    wasm_binary: Seq<char>,
    contract_id_verdict: Result<(), String>,
    name: Seq<char>,
    r: SimulationView,
) -> bool {
    match base64_decoding(wasm_binary) {
        Err(description) => r == failure(seq![encoding_error_view(description)]),
        Ok(bytes) => r == request_simulation(bytes, refusal(contract_id_verdict), name),
    }
}

/// Simulates deploying the request's module. `contract_id_verdict` is what
/// the identifier validator said of `req.contract_id`. Input errors end the
/// simulation with that one error; otherwise every stage runs.
pub fn simulate_deploy(req: &SimulateDeployRequest, contract_id_verdict: &Result<(), String>) -> (r: SimulationResult)
    ensures
        deploy_outcome(req.wasm_binary@, *contract_id_verdict, req.name@, r@),
{
    match check_request(req, contract_id_verdict) {
        Ok(bytes) => simulate_module(bytes.as_slice()),
        Err(e) => {
            let entry = e.to_simulation_error();
            let r = failed_with(vec![entry]);
            assert(r@.errors =~= seq![input_error_view(e)]);
            r
        },
    }
}

/// The slow-simulation warning for this elapsed time.
pub open spec fn slow_notice(elapsed_ms: u64) -> NoticeView {
    NoticeView {
        code: "SlowSimulation"@,
        message: "Simulation took "@ + decimal(elapsed_ms as nat) + "ms - approaching 5s limit"@,
        severity: Some("medium"@),
    }
}

/// A valid result gains the slow-simulation warning when the elapsed time is
/// over the soft budget; nothing else changes, and validity never does.
pub open spec fn within_budget(r: SimulationView, elapsed_ms: u64) -> SimulationView {
    if r.valid && elapsed_ms > SOFT_BUDGET_MS {
        SimulationView { warnings: r.warnings.push(slow_notice(elapsed_ms)), ..r }
    } else {
        r
    }
}

/// Applies the latency budget to a result, given the milliseconds that the
/// simulation took.
pub fn apply_latency_budget(result: SimulationResult, elapsed_ms: u64) -> (r: SimulationResult)
    ensures
        r@ == within_budget(result@, elapsed_ms),
{
    let mut result = result;
    if result.valid && elapsed_ms > SOFT_BUDGET_MS {
        let mut message = String::from_str("Simulation took ");
        let digits = decimal_string(elapsed_ms);
        message.append(digits.as_str());
        message.append("ms - approaching 5s limit");
        let w = SimulationWarning { code: String::from_str("SlowSimulation"), message, severity: Some(String::from_str("medium")) };
        let ghost before = result.warnings@;
        result.warnings.push(w);
        assert(result@.warnings =~= before.map_values(|w: SimulationWarning| w@).push(w@));
    }
    result
}

} // verus!
