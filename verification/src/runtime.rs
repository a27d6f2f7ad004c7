//! Loading a WASM workflow module into the host's runtime.

use vstd::prelude::*;

use crate::wasm::error_message;

verus! {

/// A workflow that runs inside a WASM module
pub struct WasmWorkflow {}

/// A store whose engine compiles with the single-pass compiler, by calling
/// `wasmer::Store::new` on `wasmer::sys::Singlepass::default()`.
#[verifier::external_body]
fn default_store() -> wasmer::Store {
    wasmer::Store::new(wasmer::sys::Singlepass::default())
}

/// Compiles `wasm_bytes` into a module of `store`, by calling
/// `wasmer::Module::new`. Nothing is stated of the outcome: whether the code
/// compiles also depends on the compiler and the machine.
#[verifier::external_body]
fn compile_module(store: &wasmer::Store, wasm_bytes: &[u8]) -> Result<wasmer::Module, wasmer::CompileError> {
    wasmer::Module::new(store, wasm_bytes)
}

/// The text that `to_string` gives for a compile error
pub uninterp spec fn compile_error_message(e: wasmer::CompileError) -> Seq<char>;

/// Wraps a compile error as a workflow error, by calling
/// `anyhow::Error::from`; the error displays as the compile error does.
#[verifier::external_body]
fn error_from_compile(e: wasmer::CompileError) -> (r: anyhow::Error)
    ensures
        error_message(r) == compile_error_message(e),
{
    anyhow::Error::from(e)
}

/// The outcome of loading a module, given the outcome of compiling it: it
/// loads exactly when it compiled, and a compile error is the error.
pub fn wasm_test_outcome(compiled: Result<wasmer::Module, wasmer::CompileError>) -> (r: Result<(), anyhow::Error>)
    ensures
        r is Ok <==> compiled is Ok,
        compiled matches Err(ce) ==> (r matches Err(e) && error_message(e) == compile_error_message(ce)),
{
    match compiled {
        Ok(_) => Ok(()),
        Err(e) => Err(error_from_compile(e)),
    }
}

/// Loads a WASM workflow module with the single-pass compiler. Whether it
/// succeeds is up to the compiler; when it fails, the error is the
/// compiler's.
pub fn wasm_test(wasm_bytes: &[u8]) -> (r: Result<(), anyhow::Error>)
    ensures
        r matches Err(e) ==> exists|ce: wasmer::CompileError|
            error_message(e) == #[trigger] compile_error_message(ce),
{
    let store = default_store();
    let compiled = compile_module(&store, wasm_bytes);
    let ghost c = compiled;
    let r = wasm_test_outcome(compiled);
    proof {
        if r is Err {
            assert(error_message(r->Err_0) == compile_error_message(c->Err_0));
        }
    }
    r
}

} // verus!
