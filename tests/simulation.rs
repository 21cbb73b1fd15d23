use base64::Engine;
use deploy_sim::abi::{extract_abi, FunctionInfo};
use deploy_sim::gas::{BASE_DEPLOYMENT_COST, COST_PER_FUNCTION, COST_PER_KB, COST_PER_MEMORY_PAGE};
use deploy_sim::simulation::{
    apply_latency_budget, check_request, simulate_deploy, simulate_module, InputError, SimulateDeployRequest,
    SimulationResult,
};

const HEADER: [u8; 8] = [0x00, 0x61, 0x73, 0x6d, 0x01, 0x00, 0x00, 0x00];

fn section(id: u8, payload: &[u8]) -> Vec<u8> {
    assert!(payload.len() < 128);
    let mut s = vec![id, payload.len() as u8];
    s.extend_from_slice(payload);
    s
}

fn name_bytes(name: &str) -> Vec<u8> {
    let mut v = vec![name.len() as u8];
    v.extend_from_slice(name.as_bytes());
    v
}

/// A module with one function, one memory page and one export of this name.
fn one_function_module(export: &str) -> Vec<u8> {
    let mut m = HEADER.to_vec();
    m.extend(section(1, &[0x01, 0x60, 0x00, 0x00]));
    m.extend(section(3, &[0x01, 0x00]));
    m.extend(section(5, &[0x01, 0x00, 0x01]));
    let mut exports = vec![0x01];
    exports.extend(name_bytes(export));
    exports.extend([0x00, 0x00]);
    m.extend(section(7, &exports));
    m.extend(section(10, &[0x01, 0x02, 0x00, 0x0b]));
    m
}

/// `module` followed by a custom section that brings it to `size` bytes.
fn padded(module: Vec<u8>, size: usize) -> Vec<u8> {
    let mut m = module;
    let filler = size - m.len() - 4;
    m.push(0x00);
    let body = filler + 1;
    m.push(((body & 0x7f) as u8) | 0x80);
    m.push((body >> 7) as u8);
    m.push(0x01);
    m.push(b'x');
    m.extend(std::iter::repeat(0u8).take(filler - 1));
    m
}

fn request(bytes: &[u8], name: &str) -> SimulateDeployRequest {
    SimulateDeployRequest {
        wasm_binary: base64::engine::general_purpose::STANDARD.encode(bytes),
        contract_id: "CCONTRACT".to_string(),
        name: name.to_string(),
    }
}

fn assert_zeroed(r: &SimulationResult) {
    assert!(!r.valid);
    assert!(r.warnings.is_empty());
    assert_eq!(r.gas_estimate.total_cost_stroops, 0);
    assert_eq!(r.gas_estimate.deployment_cost_stroops, 0);
    assert_eq!(r.gas_estimate.storage_cost_stroops, 0);
    assert_eq!(r.gas_estimate.wasm_size_bytes, 0);
    assert_eq!(r.gas_estimate.complexity_units, 0);
    assert_eq!(r.performance_metrics.estimated_execution_time_ms, 0);
    assert_eq!(r.performance_metrics.memory_estimate_kb, 0);
    assert_eq!(r.performance_metrics.function_count, 0);
    assert_eq!(r.performance_metrics.table_size_bytes, 0);
    assert_eq!(r.performance_metrics.data_section_bytes, 0);
    assert!(r.abi_preview.is_none());
    assert!(r.contract_functions.is_none());
}

#[test]
fn empty_buffer_gives_only_empty_module_error() {
    let req = SimulateDeployRequest {
        wasm_binary: String::new(),
        contract_id: "CCONTRACT".to_string(),
        name: "token".to_string(),
    };
    let r = simulate_deploy(&req, &Ok(()));
    assert_zeroed(&r);
    assert_eq!(r.errors.len(), 1);
    assert_eq!(r.errors[0].code, "EmptyWasm");
    assert_eq!(r.errors[0].message, "WASM binary is empty");
    assert_eq!(r.errors[0].field.as_deref(), Some("wasm_binary"));
}

#[test]
fn invalid_encoding_gives_only_encoding_error() {
    let req = SimulateDeployRequest {
        wasm_binary: "not base64 at all!".to_string(),
        contract_id: "not valid either".to_string(),
        name: String::new(),
    };
    let r = simulate_deploy(&req, &Err("bad id".to_string()));
    assert_zeroed(&r);
    assert_eq!(r.errors.len(), 1);
    assert_eq!(r.errors[0].code, "InvalidBase64");
    assert!(r.errors[0].message.starts_with("Failed to decode base64 WASM binary: "));
    assert!(r.errors[0].message.len() > "Failed to decode base64 WASM binary: ".len());
    assert_eq!(r.errors[0].field.as_deref(), Some("wasm_binary"));
}

#[test]
fn identifier_refusal_comes_before_name_check() {
    let req = request(&one_function_module("hello"), "");
    let r = simulate_deploy(&req, &Err("Invalid contract ID format".to_string()));
    assert_zeroed(&r);
    assert_eq!(r.errors.len(), 1);
    assert_eq!(r.errors[0].code, "InvalidContractId");
    assert_eq!(r.errors[0].message, "Invalid contract ID format");
    assert_eq!(r.errors[0].field.as_deref(), Some("contract_id"));
}

#[test]
fn empty_name_is_refused() {
    let req = request(&one_function_module("hello"), "");
    let r = simulate_deploy(&req, &Ok(()));
    assert_zeroed(&r);
    assert_eq!(r.errors.len(), 1);
    assert_eq!(r.errors[0].code, "InvalidName");
    assert_eq!(r.errors[0].message, "Contract name cannot be empty");
    assert_eq!(r.errors[0].field.as_deref(), Some("name"));
}

#[test]
fn check_request_stops_at_first_failure() {
    let bad = SimulateDeployRequest {
        wasm_binary: "@@@@".to_string(),
        contract_id: String::new(),
        name: String::new(),
    };
    assert!(matches!(check_request(&bad, &Err("x".to_string())), Err(InputError::InvalidEncoding(_))));
    let empty = SimulateDeployRequest { wasm_binary: String::new(), ..bad.clone() };
    assert!(matches!(check_request(&empty, &Err("x".to_string())), Err(InputError::EmptyModule)));
    let good = request(&[1, 2, 3], "n");
    match check_request(&good, &Ok(())) {
        Ok(bytes) => assert_eq!(bytes, vec![1, 2, 3]),
        Err(_) => panic!("request should pass"),
    }
}

#[test]
fn zero_function_module_is_invalid() {
    let r = simulate_module(&HEADER);
    assert_zeroed(&r);
    assert_eq!(r.errors.len(), 1);
    assert_eq!(r.errors[0].code, "WasmValidationError");
    assert_eq!(r.errors[0].message, "No functions found in WASM binary");
    assert_eq!(r.errors[0].field.as_deref(), Some("wasm_binary"));
}

#[test]
fn small_module_costs_base_plus_parts() {
    let module = padded(one_function_module("hello"), 2048);
    assert_eq!(module.len(), 2048);
    let r = simulate_deploy(&request(&module, "token"), &Ok(()));
    assert!(r.valid);
    assert!(r.errors.is_empty());
    assert!(r.warnings.is_empty());
    let expected = BASE_DEPLOYMENT_COST + 2 * COST_PER_KB + COST_PER_FUNCTION + COST_PER_MEMORY_PAGE;
    assert_eq!(r.gas_estimate.total_cost_stroops, expected as u128);
    assert_eq!(r.gas_estimate.deployment_cost_stroops, 71_000);
    assert_eq!(r.gas_estimate.storage_cost_stroops, 0);
    assert_eq!(r.gas_estimate.wasm_size_bytes, 2048);
    assert_eq!(r.performance_metrics.estimated_execution_time_ms, 2);
    assert_eq!(r.performance_metrics.memory_estimate_kb, 64);
    assert_eq!(r.performance_metrics.function_count, 1);
    assert_eq!(r.performance_metrics.table_size_bytes, 0);
    assert!(r.abi_preview.is_none());
    assert!(r.contract_functions.is_none());
}

#[test]
fn accessor_name_appears_in_preview() {
    let module = one_function_module("balance");
    let abi = extract_abi(&module);
    assert!(abi.success);
    assert!(abi.errors.is_empty());
    assert_eq!(abi.functions.len(), 1);
    let f: &FunctionInfo = &abi.functions[0];
    assert_eq!(f.name, "balance");
    assert!(f.is_view);
    assert_eq!(f.param_count, 0);
    assert_eq!(f.return_type.as_deref(), Some("Address"));
    assert_eq!(abi.types, vec!["balance".to_string()]);

    let r = simulate_module(&module);
    assert!(r.valid);
    let preview = r.abi_preview.expect("preview");
    assert_eq!(preview.function_count, 1);
    assert_eq!(preview.type_count, 1);
    let fs = r.contract_functions.expect("functions");
    assert_eq!(fs[0].name, "balance");
    assert!(fs[0].is_view);
}

#[test]
fn repeated_simulation_is_identical() {
    let module = one_function_module("get_balance");
    let req = request(&module, "token");
    let a = simulate_deploy(&req, &Ok(()));
    let b = simulate_deploy(&req, &Ok(()));
    assert_eq!(format!("{:?}", a), format!("{:?}", b));
    assert!(a.valid);
}

#[test]
fn slow_simulation_adds_advisory_warning() {
    let r = simulate_module(&one_function_module("hello"));
    assert!(r.valid);
    let before = r.warnings.len();
    let kept = apply_latency_budget(r.clone(), 4000);
    assert_eq!(kept.warnings.len(), before);
    let slow = apply_latency_budget(r, 4001);
    assert!(slow.valid);
    assert_eq!(slow.warnings.len(), before + 1);
    let w = slow.warnings.last().unwrap();
    assert_eq!(w.code, "SlowSimulation");
    assert_eq!(w.message, "Simulation took 4001ms - approaching 5s limit");
    assert_eq!(w.severity.as_deref(), Some("medium"));
}

#[test]
fn slow_failed_simulation_stays_unchanged() {
    let r = simulate_module(&HEADER);
    let after = apply_latency_budget(r, 9000);
    assert!(!after.valid);
    assert!(after.warnings.is_empty());
}

#[test]
fn structural_warnings_come_before_performance_warnings() {
    let mut m = HEADER.to_vec();
    m.extend(section(3, &[0x01, 0x00]));
    m.extend(section(5, &[0x01, 0x00, 0x81, 0x04]));
    let r = simulate_module(&m);
    assert!(r.valid);
    let codes: Vec<&str> = r.warnings.iter().map(|w| w.code.as_str()).collect();
    assert_eq!(codes, vec!["WasmWarning", "HIGH_MEMORY"]);
    assert_eq!(r.warnings[0].message, "No exported functions found");
    assert_eq!(r.warnings[0].severity.as_deref(), Some("low"));
    assert_eq!(r.warnings[1].severity.as_deref(), Some("high"));
    assert_eq!(r.performance_metrics.memory_estimate_kb, 513 * 64);
}

#[test]
fn repeated_invalid_encoding_gives_identical_errors() {
    let req = SimulateDeployRequest {
        wasm_binary: "AGFzbQ!!".to_string(),
        contract_id: "CCONTRACT".to_string(),
        name: "token".to_string(),
    };
    let a = simulate_deploy(&req, &Ok(()));
    let b = simulate_deploy(&req, &Ok(()));
    assert_eq!(format!("{:?}", a), format!("{:?}", b));
    assert_eq!(a.errors.len(), 1);
    assert_eq!(a.errors[0].code, "InvalidBase64");
}

#[test]
fn no_vocabulary_name_gives_fixed_error_text() {
    let text: Vec<char> = "nothing to see".chars().collect();
    match deploy_sim::abi::extract_embedded_spec(&text) {
        Err(e) => assert_eq!(e, "No contract functions detected"),
        Ok(_) => panic!("no name should be found"),
    }
}
