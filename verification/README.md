# temporal_workflow_interface

The verified core of the interface between Temporal workflows compiled to
WASM and the worker that hosts them.

- `src/` is the library, verified with Verus:
  - `interface`: workflow exit values, unblock events, command identifiers
    and the rule that names the command a workflow command blocks on.
  - `unblock`: how the host's answer becomes the value that waiting workflow
    code receives.
  - `registry`: the table of pending commands, filled when the workflow
    issues a blocking command and drained when the host answers it.
  - `encode`: the protocol-buffer wire encoding of workflow commands, with
    a decoder as spec functions and proofs that every well-formed command
    decodes back whole.
  - `wasm`, `binding`: the values that cross the WASM boundary and the
    conversions to and from them.
  - `runtime`: loading a WASM workflow module with wasmer's single-pass
    compiler.
  - `proto`: plain-value forms of the protocol messages. Commands hold the
    fields the library reads as values and the fields it only carries in
    their wire encoding.
  - `outside`: declarations of the outside types the library carries.
- `app/` is ordinary Rust: the bindings generator, the serialized forms of the
  boundary values, the channel plumbing of the WASM guest, and the handles
  that resume waiting workflow code.
- `tests/` runs the library on concrete values.
