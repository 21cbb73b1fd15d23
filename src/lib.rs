//! Pre-deployment simulation of compiled contract modules: structural
//! validation, interface preview, cost estimation and performance analysis.

pub mod decimal;
pub mod text;
pub mod wasm;
pub mod validator;
pub mod abi;
pub mod gas;
pub mod performance;
pub mod simulation;
pub mod laws;
pub mod monitor;
pub mod config;
