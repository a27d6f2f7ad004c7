//! Declarations of the outside types that run through the library.

use vstd::prelude::*;

verus! {

/// The error type that workflow code returns
#[verifier::external_type_specification]
#[verifier::external_body]
pub struct ExAnyhowError(anyhow::Error);

/// The place where compiled WASM modules live
#[verifier::external_type_specification]
#[verifier::external_body]
pub struct ExWasmStore(wasmer::Store);

/// A compiled WASM module
#[verifier::external_type_specification]
#[verifier::external_body]
pub struct ExWasmModule(wasmer::Module);

/// Why a WASM module did not compile
#[verifier::external_type_specification]
#[verifier::external_body]
pub struct ExWasmCompileError(wasmer::CompileError);

} // verus!
