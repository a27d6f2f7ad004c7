//! Verified core of the workflow interface used by WASM workflows: the data
//! a workflow exchanges with its host, the rules that tie commands to the
//! events that unblock them, and the encodings that cross the WASM boundary.

pub mod outside;
pub mod proto;
pub mod registry;
pub mod runtime;
pub mod binding;
pub mod encode;
pub mod interface;
pub mod unblock;
pub mod wasm;
