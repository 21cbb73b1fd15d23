use deploy_sim::abi::{
    extract_abi_from_text, extract_embedded_spec, guess_param_count, guess_return_type, is_view_function,
    AbiExtractionResult, FunctionInfo,
};
use deploy_sim::gas::{calculate_complexity_factor, estimate_from_counts, estimate_gas, COMPLEXITY_SCALE};
use deploy_sim::performance::{analyze_function, analyze_performance, threshold_warnings};
use deploy_sim::validator::{validate_sections, validate_wasm, WasmValidationResult};
use deploy_sim::wasm::SectionFact;

fn chars(s: &str) -> Vec<char> {
    s.chars().collect()
}

fn report(memory_pages: u64, table_count: u32, imports: usize, data: u32) -> WasmValidationResult {
    WasmValidationResult {
        valid: true,
        errors: vec![],
        warnings: vec![],
        function_count: 1,
        table_count,
        data_section_size: data,
        memory_pages,
        export_functions: vec![],
        import_functions: (0..imports).map(|i| format!("env::f{}", i)).collect(),
    }
}

fn empty_abi() -> AbiExtractionResult {
    AbiExtractionResult { success: true, errors: vec![], functions: vec![], types: vec![] }
}

#[test]
fn full_module_is_scanned() {
    let mut m = vec![0x00, 0x61, 0x73, 0x6d, 0x01, 0x00, 0x00, 0x00];
    m.extend([0x01, 0x04, 0x01, 0x60, 0x00, 0x00]);
    m.extend([0x02, 0x0b, 0x01, 0x03, b'e', b'n', b'v', 0x03, b'l', b'o', b'g', 0x00, 0x00]);
    m.extend([0x03, 0x03, 0x02, 0x00, 0x00]);
    m.extend([0x04, 0x04, 0x01, 0x70, 0x00, 0x01]);
    m.extend([0x05, 0x03, 0x01, 0x00, 0x03]);
    m.extend([0x07, 0x08, 0x01, 0x04, b'm', b'i', b'n', b't', 0x00, 0x01]);
    m.extend([0x0a, 0x07, 0x02, 0x02, 0x00, 0x0b, 0x02, 0x00, 0x0b]);
    let r = validate_wasm(&m);
    assert!(r.valid, "{:?}", r.errors);
    assert!(r.errors.is_empty());
    assert!(r.warnings.is_empty());
    assert_eq!(r.function_count, 2);
    assert_eq!(r.table_count, 1);
    assert_eq!(r.memory_pages, 3);
    assert_eq!(r.data_section_size, 0);
    assert_eq!(r.export_functions, vec!["mint".to_string()]);
    assert_eq!(r.import_functions, vec!["env::log".to_string()]);
}

#[test]
fn malformed_bytes_report_parse_error_first() {
    let r = validate_wasm(&[0x01, 0x02, 0x03, 0x04, 0x05, 0x06, 0x07, 0x08]);
    assert!(!r.valid);
    assert_eq!(r.errors.len(), 2);
    assert!(r.errors[0].starts_with("WASM parsing error: "));
    assert_eq!(r.errors[1], "No functions found in WASM binary");
    assert_eq!(r.warnings, vec!["No exported functions found".to_string()]);
}

#[test]
fn empty_code_section_and_odd_version_warn() {
    let m = vec![0x00, 0x61, 0x73, 0x6d, 0x02, 0x00, 0x00, 0x00];
    let r = validate_wasm(&m);
    assert!(!r.valid);
    let facts = vec![SectionFact::Version(2), SectionFact::Functions(1), SectionFact::CodeStart(0)];
    let r = validate_sections(&facts, &vec![], &vec![vec![Some("run".to_string())]], &vec![]);
    assert!(r.valid);
    assert_eq!(
        r.warnings,
        vec!["Unusual WASM version: 2".to_string(), "No code section found - contract may be empty".to_string()]
    );
}

#[test]
fn section_facts_fold_keeps_last_counts_and_skips_bad_entries() {
    let facts = vec![
        SectionFact::Version(1),
        SectionFact::Functions(4),
        SectionFact::Tables(2),
        SectionFact::DataSegments(7),
        SectionFact::Functions(9),
        SectionFact::Other,
        SectionFact::Malformed("unexpected end".to_string()),
    ];
    let memories = vec![vec![], vec![Some(5), None], vec![None]];
    let exports = vec![vec![Some("a".to_string()), None], vec![Some("b".to_string())]];
    let imports = vec![vec![None, Some(("m".to_string(), "f".to_string()))]];
    let r = validate_sections(&facts, &memories, &exports, &imports);
    assert!(!r.valid);
    assert_eq!(r.errors, vec!["WASM parsing error: unexpected end".to_string()]);
    assert!(r.warnings.is_empty());
    assert_eq!(r.function_count, 9);
    assert_eq!(r.table_count, 2);
    assert_eq!(r.data_section_size, 7);
    assert_eq!(r.memory_pages, 5);
    assert_eq!(r.export_functions, vec!["a".to_string(), "b".to_string()]);
    assert_eq!(r.import_functions, vec!["m::f".to_string()]);
}

#[test]
fn zero_functions_is_an_error_even_with_exports() {
    let facts = vec![SectionFact::Version(1), SectionFact::Tables(3)];
    let r = validate_sections(&facts, &vec![], &vec![vec![Some("x".to_string())]], &vec![]);
    assert!(!r.valid);
    assert_eq!(r.errors, vec!["No functions found in WASM binary".to_string()]);
}

#[test]
fn vocabulary_guesses() {
    assert_eq!(guess_param_count("init"), 1);
    assert_eq!(guess_param_count("balance"), 0);
    assert_eq!(guess_param_count("get_admin"), 0);
    assert_eq!(guess_param_count("transfer"), 2);
    assert_eq!(guess_param_count("set_admin"), 2);
    assert_eq!(guess_param_count("mint"), 2);
    assert_eq!(guess_param_count("burn"), 1);
    assert_eq!(guess_param_count("vote"), 1);
    assert_eq!(guess_return_type("get_admin").as_deref(), Some("Address"));
    assert_eq!(guess_return_type("mint").as_deref(), Some("void"));
    assert!(is_view_function("balance"));
    assert!(!is_view_function("burn"));
}

#[test]
fn preview_lists_found_names_in_vocabulary_order() {
    let text = chars("...vote...transfer..init..");
    let r = extract_abi_from_text(&text);
    let names: Vec<&str> = r.functions.iter().map(|f| f.name.as_str()).collect();
    assert_eq!(names, vec!["init", "transfer", "vote"]);
    assert_eq!(r.types, vec!["init".to_string(), "transfer".to_string(), "vote".to_string()]);
    assert_eq!(r.functions[1].param_count, 2);
    assert!(!r.functions[1].is_view);
    let none = extract_abi_from_text(&chars("nothing here"));
    assert!(none.success);
    assert!(none.functions.is_empty());
    assert!(none.errors.is_empty());
    assert!(extract_embedded_spec(&chars("nothing here")).is_err());
    assert_eq!(extract_embedded_spec(&chars("xburnx")).unwrap().len(), 1);
}

#[test]
fn cost_formula_exact_values() {
    let r = estimate_from_counts(2048, 1, 0, 1, 0);
    assert_eq!(r.total_cost_stroops, 71_000);
    let r = estimate_from_counts(10 * 1024 + 5, 3, 2, 4, 7);
    assert_eq!(r.deployment_cost_stroops, 50_000 + 50_000 + 3_000 + 4_000 + 40_000);
    assert_eq!(r.storage_cost_stroops, 3_500);
    assert_eq!(r.total_cost_stroops, 150_500);
    let v = report(4, 2, 0, 7);
    let g = estimate_gas(&vec![0u8; 1024], &v);
    assert_eq!(g.total_cost_stroops, 50_000 + 5_000 + 1_000 + 4_000 + 40_000 + 3_500);
    assert_eq!(g.wasm_size_bytes, 1024);
}

#[test]
fn cost_never_decreases_when_figures_grow() {
    let base = estimate_from_counts(5000, 3, 1, 2, 4).total_cost_stroops;
    assert!(estimate_from_counts(6000, 3, 1, 2, 4).total_cost_stroops >= base);
    assert!(estimate_from_counts(5000, 4, 1, 2, 4).total_cost_stroops > base);
    assert!(estimate_from_counts(5000, 3, 2, 2, 4).total_cost_stroops > base);
    assert!(estimate_from_counts(5000, 3, 1, 3, 4).total_cost_stroops > base);
    let huge = estimate_from_counts(u64::MAX, u32::MAX, u32::MAX, u64::MAX, u32::MAX);
    assert!(huge.total_cost_stroops > base);
}

#[test]
fn complexity_factor_stays_in_unit_range() {
    assert_eq!(calculate_complexity_factor(0, 0, 0, 0), 0);
    assert_eq!(calculate_complexity_factor(u32::MAX, u32::MAX, u64::MAX, u64::MAX), COMPLEXITY_SCALE);
    assert_eq!(calculate_complexity_factor(50, 5, 512, 51_200), COMPLEXITY_SCALE / 2);
    assert_eq!(calculate_complexity_factor(100, 0, 0, 0), 307_200);
}

#[test]
fn high_memory_alone_gives_only_that_warning() {
    let ws = threshold_warnings(0, 513, 0, 0, 0);
    assert_eq!(ws.len(), 1);
    assert_eq!(ws[0].code, "HIGH_MEMORY");
    assert_eq!(ws[0].severity, "high");
    assert_eq!(ws[0].message, "Memory allocation is 513 pages - may exceed typical limits");
    let p = analyze_performance(&[], &report(513, 0, 0, 0), &empty_abi());
    assert_eq!(p.warnings.len(), 1);
    assert_eq!(p.warnings[0].code, "HIGH_MEMORY");
    assert_eq!(p.memory_estimate_kb, 513 * 64);
    assert_eq!(p.estimated_execution_time_ms, 1);
}

#[test]
fn each_threshold_fires_on_its_own() {
    let ws = threshold_warnings(102_401, 0, 0, 0, 0);
    assert_eq!(ws.len(), 1);
    assert_eq!(ws[0].code, "LARGE_WASM");
    assert_eq!(ws[0].message, "WASM size is 100 KB - consider optimizing");
    let ws = threshold_warnings(0, 0, 11, 0, 0);
    assert_eq!(ws[0].code, "MANY_TABLES");
    assert_eq!(ws[0].message, "11 tables detected - may impact performance");
    assert_eq!(ws[0].severity, "low");
    let ws = threshold_warnings(0, 0, 0, 6, 0);
    assert_eq!(ws[0].code, "MANY_IMPORTS");
    assert_eq!(ws[0].message, "6 imported functions - consider bundling");
    let ws = threshold_warnings(0, 0, 0, 0, 51);
    assert_eq!(ws[0].code, "LARGE_DATA");
    assert_eq!(ws[0].message, "Large data section (51 entries) - consider lazy loading");
    assert_eq!(ws[0].severity, "medium");
    assert!(threshold_warnings(102_400, 512, 10, 5, 50).is_empty());
    let all: Vec<String> = threshold_warnings(200_000, 600, 20, 9, 60).into_iter().map(|w| w.code).collect();
    assert_eq!(all, vec!["LARGE_WASM", "HIGH_MEMORY", "MANY_TABLES", "MANY_IMPORTS", "LARGE_DATA"]);
    let p = analyze_performance(&vec![0u8; 5 * 1024], &report(0, 0, 6, 0), &empty_abi());
    assert_eq!(p.warnings.len(), 1);
    assert_eq!(p.warnings[0].code, "MANY_IMPORTS");
    assert_eq!(p.estimated_execution_time_ms, 5);
}

#[test]
fn function_tiers_follow_rule_order() {
    let abi = AbiExtractionResult {
        success: true,
        errors: vec![],
        functions: vec![
            FunctionInfo { name: "wide".to_string(), param_count: 6, return_type: None, is_view: false },
            FunctionInfo { name: "narrow".to_string(), param_count: 2, return_type: None, is_view: false },
            FunctionInfo { name: "get_batch".to_string(), param_count: 9, return_type: None, is_view: false },
        ],
        types: vec![],
    };
    let a = analyze_function("get_batch", &abi);
    assert_eq!(a.complexity, "low");
    assert!(a.recommendation.is_none());
    let a = analyze_function("total_view", &abi);
    assert_eq!(a.complexity, "low");
    let a = analyze_function("batch_send", &abi);
    assert_eq!(a.complexity, "high");
    assert_eq!(a.recommendation.as_deref(), Some("Consider adding pagination for large datasets"));
    let a = analyze_function("iterate_all", &abi);
    assert_eq!(a.complexity, "high");
    let a = analyze_function("wide", &abi);
    assert_eq!(a.complexity, "medium");
    assert_eq!(a.recommendation.as_deref(), Some("Consider grouping parameters into structs"));
    let a = analyze_function("narrow", &abi);
    assert_eq!(a.complexity, "low");
    let a = analyze_function("other", &abi);
    assert_eq!(a.complexity, "unknown");
    assert_eq!(a.name, "other");

    let mut v = report(0, 0, 0, 0);
    v.export_functions = vec!["wide".to_string(), "get_x".to_string(), "other".to_string()];
    let p = analyze_performance(&[], &v, &abi);
    let tiers: Vec<&str> = p.function_analysis.iter().map(|a| a.complexity.as_str()).collect();
    assert_eq!(tiers, vec!["medium", "low", "unknown"]);
}
