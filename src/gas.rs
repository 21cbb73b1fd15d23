//! The cost estimator: a fixed-point estimate of what deploying a module and
//! storing its data costs, and a bounded measure of its structural complexity.

use vstd::prelude::*;
use crate::validator::WasmValidationResult;

verus! {

/// Currency subunits in one display unit.
pub const STROOPS_PER_XLM: u64 = 10_000_000;
/// Cost of any deployment, before size and structure.
pub const BASE_DEPLOYMENT_COST: u64 = 50_000;
/// Cost of each whole kilobyte of module.
pub const COST_PER_KB: u64 = 5_000;
/// Cost of each declared function.
pub const COST_PER_FUNCTION: u64 = 1_000;
/// Cost of each declared table.
pub const COST_PER_TABLE: u64 = 2_000;
/// Cost of each initial memory page.
pub const COST_PER_MEMORY_PAGE: u64 = 10_000;
/// The complexity factor is `complexity_units / COMPLEXITY_SCALE`, a value in
/// `[0, 1]`; this denominator makes the weighted blend exact in integers.
pub const COMPLEXITY_SCALE: u64 = 1_024_000;

/// The estimate for one module. Costs are in currency subunits; the
/// complexity factor is `complexity_units / COMPLEXITY_SCALE`.
#[derive(Debug, Clone, Copy, PartialEq, Eq)]
pub struct GasEstimationResult {
    pub total_cost_stroops: u128,
    pub deployment_cost_stroops: u128,
    pub storage_cost_stroops: u128,
    pub wasm_size_bytes: u64,
    pub complexity_units: u64,
}

/// Cost of deploying a module of `size_bytes` bytes with these counts: the
/// base cost plus whole kilobytes, functions, tables and memory pages.
pub open spec fn deployment_cost(size_bytes: nat, function_count: nat, table_count: nat, memory_pages: nat) -> nat {
    (BASE_DEPLOYMENT_COST + (size_bytes / 1024) * COST_PER_KB + function_count * COST_PER_FUNCTION
        + table_count * COST_PER_TABLE + memory_pages * COST_PER_MEMORY_PAGE) as nat
}

/// Cost of storing a data section of this many segments: a tenth of a
/// kilobyte's cost per segment, rounded down.
pub open spec fn storage_cost(data_segments: nat) -> nat {
    (data_segments * COST_PER_KB / 10) as nat
}

/// Deployment and storage cost together.
pub open spec fn total_cost(
    size_bytes: nat,
    function_count: nat,
    table_count: nat,
    memory_pages: nat,
    data_segments: nat,
) -> nat {
    deployment_cost(size_bytes, function_count, table_count, memory_pages) + storage_cost(data_segments)
}

/// The smaller of `a` and `b`.
pub open spec fn min_nat(a: nat, b: nat) -> nat {
    if a <= b { a } else { b }
}

/// The complexity blend in units of `1 / COMPLEXITY_SCALE`: each of
/// functions / 100, tables / 10, pages / 1024 and kilobytes / 100 is capped
/// at one and weighted 0.3, 0.2, 0.2 and 0.3.
pub open spec fn complexity_units(size_bytes: nat, function_count: nat, table_count: nat, memory_pages: nat) -> nat {
    (3072 * min_nat(function_count, 100) + 20480 * min_nat(table_count, 10) + 200 * min_nat(memory_pages, 1024)
        + 3 * min_nat(size_bytes, 102400)) as nat
}

/// The estimate for these figures.
pub open spec fn gas_estimate(
    size_bytes: u64,
    function_count: u32,
    table_count: u32,
    memory_pages: u64,
    data_segments: u32,
) -> GasEstimationResult {
    GasEstimationResult {
        total_cost_stroops: total_cost(size_bytes as nat, function_count as nat, table_count as nat, memory_pages as nat, data_segments as nat) as u128,
        deployment_cost_stroops: deployment_cost(size_bytes as nat, function_count as nat, table_count as nat, memory_pages as nat) as u128,
        storage_cost_stroops: storage_cost(data_segments as nat) as u128,
        wasm_size_bytes: size_bytes,
        complexity_units: complexity_units(size_bytes as nat, function_count as nat, table_count as nat, memory_pages as nat) as u64,
    }
}

/// The complexity blend, in units of `1 / COMPLEXITY_SCALE`.
pub fn calculate_complexity_factor(function_count: u32, table_count: u32, memory_pages: u64, wasm_size_bytes: u64) -> (r: u64)
    ensures
        r == complexity_units(wasm_size_bytes as nat, function_count as nat, table_count as nat, memory_pages as nat),
        r <= COMPLEXITY_SCALE,
{
    let f: u64 = if function_count < 100 { function_count as u64 } else { 100 };
    let t: u64 = if table_count < 10 { table_count as u64 } else { 10 };
    let m: u64 = if memory_pages < 1024 { memory_pages } else { 1024 };
    let s: u64 = if wasm_size_bytes < 102400 { wasm_size_bytes } else { 102400 };
    3072 * f + 20480 * t + 200 * m + 3 * s
}

/// The estimate for a module of `size_bytes` bytes with these counts.
pub fn estimate_from_counts(
    size_bytes: u64,
    function_count: u32,
    table_count: u32,
    memory_pages: u64,
    data_segments: u32,
) -> (r: GasEstimationResult)
    ensures
        r == gas_estimate(size_bytes, function_count, table_count, memory_pages, data_segments),
{
    let kb: u128 = (size_bytes / 1024) as u128;
    assert(kb * COST_PER_KB <= u64::MAX * 5000) by (nonlinear_arith)
        requires kb <= u64::MAX, COST_PER_KB == 5000;
    assert(function_count * COST_PER_FUNCTION <= u32::MAX * 1000) by (nonlinear_arith)
        requires function_count <= u32::MAX, COST_PER_FUNCTION == 1000;
    assert(table_count * COST_PER_TABLE <= u32::MAX * 2000) by (nonlinear_arith)
        requires table_count <= u32::MAX, COST_PER_TABLE == 2000;
    assert(memory_pages * COST_PER_MEMORY_PAGE <= u64::MAX * 10000) by (nonlinear_arith)
        requires memory_pages <= u64::MAX, COST_PER_MEMORY_PAGE == 10000;
    assert(data_segments * COST_PER_KB <= u32::MAX * 5000) by (nonlinear_arith)
        requires data_segments <= u32::MAX, COST_PER_KB == 5000;
    let size_cost: u128 = kb * COST_PER_KB as u128;
    let function_cost: u128 = function_count as u128 * COST_PER_FUNCTION as u128;
    let table_cost: u128 = table_count as u128 * COST_PER_TABLE as u128;
    let memory_cost: u128 = memory_pages as u128 * COST_PER_MEMORY_PAGE as u128;
    let deployment_cost: u128 = BASE_DEPLOYMENT_COST as u128 + size_cost + function_cost + table_cost + memory_cost;
    let storage_cost: u128 = data_segments as u128 * COST_PER_KB as u128 / 10;
    GasEstimationResult {
        total_cost_stroops: deployment_cost + storage_cost,
        deployment_cost_stroops: deployment_cost,
        storage_cost_stroops: storage_cost,
        wasm_size_bytes: size_bytes,
        complexity_units: calculate_complexity_factor(function_count, table_count, memory_pages, size_bytes),
    }
}

/// The estimate for a module from its bytes and its structural report.
pub fn estimate_gas(wasm_bytes: &[u8], validation_result: &WasmValidationResult) -> (r: GasEstimationResult)
    ensures
        r == gas_estimate(
            wasm_bytes@.len() as u64,
            validation_result.function_count,
            validation_result.table_count,
            validation_result.memory_pages,
            validation_result.data_section_size,
        ),
{
    estimate_from_counts(
        wasm_bytes.len() as u64,
        validation_result.function_count,
        validation_result.table_count,
        validation_result.memory_pages,
        validation_result.data_section_size,
    )
}

} // verus!
