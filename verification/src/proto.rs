//! Plain-value forms of the protocol messages that travel between a workflow
//! and its host. Each holds the fields that this library carries, reads or
//! encodes.

use vstd::prelude::*;

verus! {

/// A span of time: whole seconds and a nanosecond remainder
#[derive(Debug, Clone, Copy, PartialEq, Eq, Structural)]
pub struct Duration {
    pub seconds: i64,
    pub nanos: i32,
}

/// A serialized value with its metadata
#[derive(Debug, Clone, PartialEq, Eq)]
pub struct Payload {
    pub metadata: Vec<(String, Vec<u8>)>,
    pub data: Vec<u8>,
}

/// A failure reported by the server or by another workflow
#[derive(Debug, Clone, PartialEq, Eq)]
pub struct Failure {
    pub message: String,
    pub source: String,
    pub stack_trace: String,
}

/// Identifies one run of a workflow within a namespace
#[derive(Debug, Clone, PartialEq, Eq)]
pub struct NamespacedWorkflowExecution {
    pub namespace: String,
    pub workflow_id: String,
    pub run_id: String,
}

/// How an activity ended
#[derive(Debug, Clone, PartialEq, Eq)]
pub enum ActivityResolutionStatus {
    Completed { result: Option<Payload> },
    Failed { failure: Option<Failure> },
    Cancelled { failure: Option<Failure> },
    Backoff { attempt: u32, backoff_duration: Option<Duration> },
}

/// The resolution of a scheduled activity
#[derive(Debug, Clone, PartialEq, Eq)]
pub struct ActivityResolution {
    pub status: Option<ActivityResolutionStatus>,
}

/// How a child workflow ended
#[derive(Debug, Clone, PartialEq, Eq)]
pub enum ChildWorkflowResultStatus {
    Completed { result: Option<Payload> },
    Failed { failure: Option<Failure> },
    Cancelled { failure: Option<Failure> },
}

/// The result of a child workflow
#[derive(Debug, Clone, PartialEq, Eq)]
pub struct ChildWorkflowResult {
    pub status: Option<ChildWorkflowResultStatus>,
}

/// The outcome of asking the server to start a child workflow
#[derive(Debug, Clone, PartialEq, Eq)]
pub enum ChildWorkflowStartStatus {
    Succeeded { run_id: String },
    Failed { workflow_id: String, workflow_type: String, cause: i32 },
    Cancelled { failure: Option<Failure> },
}

/// A request to end this run and continue the workflow as a new run
#[derive(Debug, Clone, PartialEq, Eq)]
pub struct ContinueAsNewWorkflowExecution {
    pub workflow_type: String,
    pub task_queue: String,
    pub arguments: Vec<Payload>,
}

/// Start a timer
#[derive(Debug, Clone, Copy, PartialEq, Eq, Structural)]
pub struct StartTimer {
    pub seq: u32,
    pub start_to_fire_timeout: Option<Duration>,
}

/// Cancel a timer
#[derive(Debug, Clone, Copy, PartialEq, Eq, Structural)]
pub struct CancelTimer {
    pub seq: u32,
}

/// Record a patch marker
#[derive(Debug, Clone, PartialEq, Eq)]
pub struct SetPatchMarker {
    pub patch_id: String,
    pub deprecated: bool,
}

// The commands below are told apart by their sequence number, which the
// library reads. Their other fields (identifiers, types, task queues,
// arguments, headers, timeouts, retry policies) the library only carries:
// `fields` holds them in their wire encoding, in field order, after field 1.

/// Schedule an activity
#[derive(Debug, Clone, PartialEq, Eq)]
pub struct ScheduleActivity {
    pub seq: u32,
    pub fields: Vec<u8>,
}

/// Schedule a local activity
#[derive(Debug, Clone, PartialEq, Eq)]
pub struct ScheduleLocalActivity {
    pub seq: u32,
    pub fields: Vec<u8>,
}

/// Start a child workflow
#[derive(Debug, Clone, PartialEq, Eq)]
pub struct StartChildWorkflowExecution {
    pub seq: u32,
    pub fields: Vec<u8>,
}

/// Ask the server to cancel another workflow
#[derive(Debug, Clone, PartialEq, Eq)]
pub struct RequestCancelExternalWorkflowExecution {
    pub seq: u32,
    pub fields: Vec<u8>,
}

/// Send a signal to another workflow
#[derive(Debug, Clone, PartialEq, Eq)]
pub struct SignalExternalWorkflowExecution {
    pub seq: u32,
    pub fields: Vec<u8>,
}

/// A command that a workflow issues to its host
#[derive(Debug, Clone, PartialEq, Eq)]
pub enum WorkflowCommandVariant {
    StartTimer(StartTimer),
    ScheduleActivity(ScheduleActivity),
    CancelTimer(CancelTimer),
    SetPatchMarker(SetPatchMarker),
    StartChildWorkflowExecution(StartChildWorkflowExecution),
    RequestCancelExternalWorkflowExecution(RequestCancelExternalWorkflowExecution),
    SignalExternalWorkflowExecution(SignalExternalWorkflowExecution),
    ScheduleLocalActivity(ScheduleLocalActivity),
    /// A command of a kind the library neither reads nor files (completing,
    /// failing or cancelling the workflow, answering a query, and the other
    /// cancellations): its field number in the command envelope and its
    /// message in wire encoding
    Other { field: u32, message: Vec<u8> },
}

/// The mathematical form of a command
pub enum CommandView {
    StartTimer { seq: u32, start_to_fire_timeout: Option<Duration> },
    ScheduleActivity { seq: u32, fields: Seq<u8> },
    CancelTimer { seq: u32 },
    SetPatchMarker { patch_id: Seq<char>, deprecated: bool },
    StartChildWorkflowExecution { seq: u32, fields: Seq<u8> },
    RequestCancelExternalWorkflowExecution { seq: u32, fields: Seq<u8> },
    SignalExternalWorkflowExecution { seq: u32, fields: Seq<u8> },
    ScheduleLocalActivity { seq: u32, fields: Seq<u8> },
    Other { field: u32, message: Seq<u8> },
}

impl View for WorkflowCommandVariant {
    type V = CommandView;

    open spec fn view(&self) -> CommandView {
        match self {
            WorkflowCommandVariant::StartTimer(c) => CommandView::StartTimer {
                seq: c.seq,
                start_to_fire_timeout: c.start_to_fire_timeout,
            },
            WorkflowCommandVariant::ScheduleActivity(c) => CommandView::ScheduleActivity {
                seq: c.seq,
                fields: c.fields@,
            },
            WorkflowCommandVariant::CancelTimer(c) => CommandView::CancelTimer { seq: c.seq },
            WorkflowCommandVariant::SetPatchMarker(c) => CommandView::SetPatchMarker {
                patch_id: c.patch_id@,
                deprecated: c.deprecated,
            },
            WorkflowCommandVariant::StartChildWorkflowExecution(c) => {
                CommandView::StartChildWorkflowExecution { seq: c.seq, fields: c.fields@ }
            },
            WorkflowCommandVariant::RequestCancelExternalWorkflowExecution(c) => {
                CommandView::RequestCancelExternalWorkflowExecution { seq: c.seq, fields: c.fields@ }
            },
            WorkflowCommandVariant::SignalExternalWorkflowExecution(c) => {
                CommandView::SignalExternalWorkflowExecution { seq: c.seq, fields: c.fields@ }
            },
            WorkflowCommandVariant::ScheduleLocalActivity(c) => CommandView::ScheduleLocalActivity {
                seq: c.seq,
                fields: c.fields@,
            },
            WorkflowCommandVariant::Other { field, message } => CommandView::Other {
                field: *field,
                message: message@,
            },
        }
    }
}

} // verus!
