//! Conversions between the workflow interface and the values that cross the
//! WASM boundary.

use vstd::prelude::*;

use crate::binding::{self, WasmCmdRequest, WasmUnblock, WasmWfResult};
use crate::encode::{encodable_command, encode_workflow_command, workflow_command_bytes};
use crate::interface::{TimerResult, UnblockEvent, WfExitValue, WorkflowResult};
use crate::proto::WorkflowCommandVariant;

verus! {

/// The workflow's form of a timer result the host reported
pub open spec fn timer_result_of(tr: binding::TimerResult) -> TimerResult {
    match tr {
        binding::TimerResult::Cancelled => TimerResult::Cancelled,
        binding::TimerResult::Fired => TimerResult::Fired,
    }
}

/// The host's form of a timer result
pub open spec fn host_timer_result_of(tr: TimerResult) -> binding::TimerResult {
    match tr {
        TimerResult::Cancelled => binding::TimerResult::Cancelled,
        TimerResult::Fired => binding::TimerResult::Fired,
    }
}

/// The workflow's form of an unblock from the host
pub open spec fn unblock_event_of(ub: WasmUnblock) -> UnblockEvent {
    match ub {
        WasmUnblock::Timer(id, res) => UnblockEvent::Timer(id, timer_result_of(res)),
    }
}

impl From<binding::TimerResult> for TimerResult {
    fn from(tr: binding::TimerResult) -> (r: Self) {
        match tr {
            binding::TimerResult::Cancelled => TimerResult::Cancelled,
            binding::TimerResult::Fired => TimerResult::Fired,
        }
    }
}

impl vstd::std_specs::convert::FromSpecImpl<binding::TimerResult> for TimerResult {
    open spec fn obeys_from_spec() -> bool {
        true
    }

    open spec fn from_spec(tr: binding::TimerResult) -> Self {
        timer_result_of(tr)
    }
}

impl From<TimerResult> for binding::TimerResult {
    fn from(tr: TimerResult) -> (r: Self) {
        match tr {
            TimerResult::Cancelled => binding::TimerResult::Cancelled,
            TimerResult::Fired => binding::TimerResult::Fired,
        }
    }
}

impl vstd::std_specs::convert::FromSpecImpl<TimerResult> for binding::TimerResult {
    open spec fn obeys_from_spec() -> bool {
        true
    }

    open spec fn from_spec(tr: TimerResult) -> Self {
        host_timer_result_of(tr)
    }
}

impl From<WasmUnblock> for UnblockEvent {
    fn from(ub: WasmUnblock) -> (r: Self) {
        match ub {
            WasmUnblock::Timer(id, res) => UnblockEvent::Timer(id, TimerResult::from(res)),
        }
    }
}

impl vstd::std_specs::convert::FromSpecImpl<WasmUnblock> for UnblockEvent {
    open spec fn obeys_from_spec() -> bool {
        true
    }

    open spec fn from_spec(ub: WasmUnblock) -> Self {
        unblock_event_of(ub)
    }
}

/// The host's form of an unblock event; only timer events have one
pub open spec fn wasm_unblock_of(ub: UnblockEvent) -> WasmUnblock
    recommends
        ub is Timer,
{
    WasmUnblock::Timer(ub->Timer_0, host_timer_result_of(ub->Timer_1))
}

/// The host's form of an unblock event. Only timer events cross the
/// boundary, so only they may be passed.
pub fn wasm_unblock_from_event(ub: UnblockEvent) -> (r: WasmUnblock)
    requires
        ub is Timer,
    ensures
        r == wasm_unblock_of(ub),
{
    match ub {
        UnblockEvent::Timer(id, res) => WasmUnblock::Timer(id, binding::TimerResult::from(res)),
        _ => vstd::pervasive::unreached(),
    }
}

/// The text that `to_string` gives for an error: its outermost message
pub uninterp spec fn error_message(e: anyhow::Error) -> Seq<char>;

/// The message of an error, by calling `to_string` on an `anyhow::Error`.
#[verifier::external_body]
fn error_text(e: &anyhow::Error) -> (s: String)
    ensures
        s@ == error_message(*e),
{
    e.to_string()
}

/// An error carrying `message`, by calling `anyhow::Error::msg`; such an
/// error displays as its message.
#[verifier::external_body]
fn error_from_text(message: String) -> (e: anyhow::Error)
    ensures
        error_message(e) == message@,
{
    anyhow::Error::msg(message)
}

/// The workflow results that the host can be told of: every error, and
/// every normal exit
pub open spec fn reportable<T>(res: WorkflowResult<T>) -> bool {
    res matches Ok(v) ==> v is Normal
}

/// `w` is the host's form of `res`: a normal exit carries its value, an
/// error becomes an error report with the error's message
pub open spec fn reports<T>(res: WorkflowResult<T>, w: WasmWfResult<T>) -> bool {
    match res {
        Ok(WfExitValue::Normal(v)) => w == WasmWfResult::Completed(v),
        Ok(_) => false,
        Err(e) => w matches WasmWfResult::Error(s) && s@ == error_message(e),
    }
}

/// `r` is the workflow's form of the report `w`: a value is a normal exit
/// with it, an error report is an error with the reported message
pub open spec fn reads_back<T>(w: WasmWfResult<T>, r: WorkflowResult<T>) -> bool {
    match w {
        WasmWfResult::Completed(v) => r == Ok::<WfExitValue<T>, anyhow::Error>(WfExitValue::Normal(v)),
        WasmWfResult::Error(s) => r matches Err(e) && error_message(e) == s@,
    }
}

/// The host's form of a workflow result. Only normal exits and errors can
/// be reported, so other exits may not be passed.
pub fn to_wasm_result<T>(res: WorkflowResult<T>) -> (r: WasmWfResult<T>)
    requires
        reportable(res),
    ensures
        reports(res, r),
{
    match res {
        Ok(v) => match v {
            WfExitValue::Normal(v) => WasmWfResult::Completed(v),
            _ => vstd::pervasive::unreached(),
        },
        Err(e) => WasmWfResult::Error(error_text(&e)),
    }
}

/// The workflow's form of a result the host reported
pub fn from_wasm_result<T>(res: WasmWfResult<T>) -> (r: WorkflowResult<T>)
    ensures
        reads_back(res, r),
        reportable(r),
{
    match res {
        WasmWfResult::Completed(v) => Ok(WfExitValue::from(v)),
        WasmWfResult::Error(s) => Err(error_from_text(s)),
    }
}

/// A command in the encoded form the host reads
pub fn encode_wf_cmd(cmd: WorkflowCommandVariant) -> (r: WasmCmdRequest)
    requires
        encodable_command(cmd),
    ensures
        r.wf_cmd_variant_proto@ == workflow_command_bytes(cmd),
{
    let bb = encode_workflow_command(&cmd);
    WasmCmdRequest { wf_cmd_variant_proto: bb }
}

/// The host's timer results are the workflow's, value for value, in both
/// directions; an unblock from the host becomes the timer event with the
/// same sequence number and the same result, whatever the number, and a
/// timer event goes back to the host the same way. The conversions that
/// `from` performs are these.
pub proof fn lemma_unblock_conversion_pointwise(id: u32)
    ensures
        timer_result_of(binding::TimerResult::Fired) == TimerResult::Fired,
        timer_result_of(binding::TimerResult::Cancelled) == TimerResult::Cancelled,
        host_timer_result_of(TimerResult::Fired) == binding::TimerResult::Fired,
        host_timer_result_of(TimerResult::Cancelled) == binding::TimerResult::Cancelled,
        <TimerResult as vstd::std_specs::convert::FromSpec<binding::TimerResult>>::from_spec(
            binding::TimerResult::Fired,
        ) == TimerResult::Fired,
        <TimerResult as vstd::std_specs::convert::FromSpec<binding::TimerResult>>::from_spec(
            binding::TimerResult::Cancelled,
        ) == TimerResult::Cancelled,
        <binding::TimerResult as vstd::std_specs::convert::FromSpec<TimerResult>>::from_spec(
            TimerResult::Fired,
        ) == binding::TimerResult::Fired,
        <binding::TimerResult as vstd::std_specs::convert::FromSpec<TimerResult>>::from_spec(
            TimerResult::Cancelled,
        ) == binding::TimerResult::Cancelled,
        unblock_event_of(WasmUnblock::Timer(id, binding::TimerResult::Fired)) == UnblockEvent::Timer(
            id,
            TimerResult::Fired,
        ),
        unblock_event_of(WasmUnblock::Timer(id, binding::TimerResult::Cancelled))
            == UnblockEvent::Timer(id, TimerResult::Cancelled),
        <UnblockEvent as vstd::std_specs::convert::FromSpec<WasmUnblock>>::from_spec(
            WasmUnblock::Timer(id, binding::TimerResult::Fired),
        ) == UnblockEvent::Timer(id, TimerResult::Fired),
        <UnblockEvent as vstd::std_specs::convert::FromSpec<WasmUnblock>>::from_spec(
            WasmUnblock::Timer(id, binding::TimerResult::Cancelled),
        ) == UnblockEvent::Timer(id, TimerResult::Cancelled),
        wasm_unblock_of(UnblockEvent::Timer(id, TimerResult::Fired)) == WasmUnblock::Timer(
            id,
            binding::TimerResult::Fired,
        ),
        wasm_unblock_of(UnblockEvent::Timer(id, TimerResult::Cancelled)) == WasmUnblock::Timer(
            id,
            binding::TimerResult::Cancelled,
        ),
{
}

/// Converting a timer result to the host's form and back gives it back, and
/// so does the other way round.
pub proof fn lemma_timer_result_round_trip(t: TimerResult, b: binding::TimerResult)
    ensures
        timer_result_of(host_timer_result_of(t)) == t,
        host_timer_result_of(timer_result_of(b)) == b,
{
}

/// An unblock from the host, turned into an event and back, is the same
/// unblock; a timer event, turned into the host's form and back, is the same
/// event.
pub proof fn lemma_unblock_round_trip(ub: WasmUnblock, ev: UnblockEvent)
    ensures
        wasm_unblock_of(unblock_event_of(ub)) == ub,
        ev is Timer ==> unblock_event_of(wasm_unblock_of(ev)) == ev,
{
}

/// A report read back by the workflow can be reported again, and gives the
/// same report: the same value, or an error report with the same message.
/// A normal exit, reported and read back, is the same exit; an error,
/// reported and read back, is an error with the same message.
pub proof fn lemma_result_round_trip<T>(
    res: WorkflowResult<T>,
    w: WasmWfResult<T>,
    back: WorkflowResult<T>,
    again: WasmWfResult<T>,
)
    ensures
        reads_back(w, back) ==> reportable(back),
        reads_back(w, back) && reports(back, again) ==> {
            &&& w is Completed ==> again == w
            &&& w matches WasmWfResult::Error(s) ==> (again matches WasmWfResult::Error(s2)
                && s2@ == s@)
        },
        res is Ok && reports(res, w) && reads_back(w, back) ==> back == res,
        res is Err && reports(res, w) && reads_back(w, back) ==> (back is Err && error_message(
            back->Err_0,
        ) == error_message(res->Err_0)),
{
}

} // verus!
