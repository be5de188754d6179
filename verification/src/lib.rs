//! A mutation-testing engine for WebAssembly modules.
//!
//! Given the bytes of a compiled module together with its embedded test
//! harness, the engine selects candidate functions by demangled-name prefix,
//! generates small single-instruction defects ("mutants") from a fixed
//! operator catalog, applies each one to a fresh copy of the module, runs the
//! harness through an execution oracle, and reports the mutants that the
//! harness fails to detect.

pub mod candidates;
pub mod engine;
pub mod instr;
pub mod mutation;
pub mod runner;
pub mod wasm;
