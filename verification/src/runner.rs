//! The execution oracle boundary.
//!
//! A serialized module is handed to an instruction-level interpreter, its
//! well-known `main` entry point is invoked with a fixed calling convention,
//! and the two-valued verdict — did execution complete without a runtime
//! fault? — is all this crate consumes of it.

use vstd::prelude::*;

verus! {

/// The oracle's verdict on one module's harness execution.
#[derive(Clone, Copy, PartialEq, Eq, Structural, Debug)]
pub enum TestResult {
    Passed,
    Failed,
}

/// The oracle itself failed to run the module (the module did not validate,
/// could not be instantiated, or carries a start section): distinct from the
/// module under test reporting a harness failure.
#[derive(Clone, Copy, PartialEq, Eq, Structural, Debug)]
pub struct OracleError;

/// Relies on `wasmi`: `Module::from_buffer` validates the bytes,
/// `ModuleInstance::new` instantiates them without imports, and
/// `invoke_export` calls the exported `main` with two zero words; a trap or
/// invocation error is the harness failing. The contract says nothing about
/// which verdict comes back: callers must handle both outcomes.
#[verifier::external_body]
pub fn run_tests(wasm_bytes: &[u8]) -> (r: Result<TestResult, OracleError>) {
    let module = match wasmi::Module::from_buffer(wasm_bytes) {
        Ok(m) => m,
        Err(_) => return Err(OracleError),
    };
    let instance = match wasmi::ModuleInstance::new(&module, &wasmi::ImportsBuilder::default()) {
        Ok(i) if !i.has_start() => i.assert_no_start(),
        _ => return Err(OracleError),
    };
    let args = [wasmi::RuntimeValue::from(0), wasmi::RuntimeValue::from(0)];
    match instance.invoke_export("main", &args, &mut wasmi::NopExternals) {
        Ok(_) => Ok(TestResult::Passed),
        Err(_) => Ok(TestResult::Failed),
    }
}

} // verus!
