//! The values that cross the boundary between a WASM workflow and its host.

use vstd::prelude::*;

verus! {

/// Result of awaiting on a timer, as the host reports it
#[derive(Debug, Clone, Copy, PartialEq, Eq, Structural)]
pub enum TimerResult {
    Cancelled,
    Fired,
}

/// An answer from the host to a blocking command
#[derive(Debug, Clone, Copy, PartialEq, Eq, Structural)]
pub enum WasmUnblock {
    Timer(u32, TimerResult),
}

/// How a WASM workflow ended, as reported to the host
#[derive(Debug, Clone, PartialEq, Eq)]
pub enum WasmWfResult<T> {
    Completed(T),
    Error(String),
}

/// A workflow command in its encoded form
#[derive(Debug, Clone, PartialEq, Eq)]
pub struct WasmCmdRequest {
    pub wf_cmd_variant_proto: Vec<u8>,
}

/// A command that a WASM workflow hands to its host
#[derive(Debug, Clone, PartialEq, Eq)]
pub enum WasmWfCmd {
    NewCmd(WasmCmdRequest),
}

} // verus!
