//! The workflow interface: how a workflow exits, the events that resume it,
//! and the identifiers of the commands it blocks on.

use vstd::prelude::*;

use crate::proto::{
    ActivityResolution, ChildWorkflowResult, ChildWorkflowStartStatus, ContinueAsNewWorkflowExecution,
    Failure, NamespacedWorkflowExecution, WorkflowCommandVariant,
};

verus! {

/// Result of awaiting on a timer
#[derive(Debug, Clone, Copy, PartialEq, Eq, Structural)]
pub enum TimerResult {
    /// The timer was cancelled
    Cancelled,
    /// The timer elapsed and fired
    Fired,
}

/// Successful result of sending a signal to an external workflow
#[derive(Debug, Clone, Copy, PartialEq, Eq, Structural)]
pub struct SignalExternalOk;

/// Successful result of sending a cancel request to an external workflow
#[derive(Debug, Clone, Copy, PartialEq, Eq, Structural)]
pub struct CancelExternalOk;

/// Identifier of a command that blocks the workflow until the host answers it
#[derive(Debug, PartialEq, Eq, Hash, Clone, Copy, Structural)]
pub enum CommandID {
    Timer(u32),
    Activity(u32),
    ChildWorkflowStart(u32),
    ChildWorkflowComplete(u32),
    SignalExternal(u32),
    CancelExternal(u32),
}

impl CommandID {
    /// The sequence number the identifier carries
    pub open spec fn seq(self) -> u32 {
        match self {
            CommandID::Timer(s) => s,
            CommandID::Activity(s) => s,
            CommandID::ChildWorkflowStart(s) => s,
            CommandID::ChildWorkflowComplete(s) => s,
            CommandID::SignalExternal(s) => s,
            CommandID::CancelExternal(s) => s,
        }
    }

    /// Position of the identifier's variant in declaration order
    pub open spec fn kind_index(self) -> u64 {
        match self {
            CommandID::Timer(_) => 0,
            CommandID::Activity(_) => 1,
            CommandID::ChildWorkflowStart(_) => 2,
            CommandID::ChildWorkflowComplete(_) => 3,
            CommandID::SignalExternal(_) => 4,
            CommandID::CancelExternal(_) => 5,
        }
    }

    /// The integer under which the identifier is filed: kind in the high
    /// half, sequence number in the low half
    pub open spec fn key(self) -> u64 {
        (self.kind_index() * 0x1_0000_0000 + self.seq()) as u64
    }

    /// The identifier filed under `k`
    pub open spec fn from_key(k: u64) -> CommandID {
        let seq = (k % 0x1_0000_0000) as u32;
        let kind = k / 0x1_0000_0000;
        if kind == 0 {
            CommandID::Timer(seq)
        } else if kind == 1 {
            CommandID::Activity(seq)
        } else if kind == 2 {
            CommandID::ChildWorkflowStart(seq)
        } else if kind == 3 {
            CommandID::ChildWorkflowComplete(seq)
        } else if kind == 4 {
            CommandID::SignalExternal(seq)
        } else {
            CommandID::CancelExternal(seq)
        }
    }

    /// Computes `key`
    pub fn to_key(&self) -> (k: u64)
        ensures
            k == self.key(),
    {
        match *self {
            CommandID::Timer(s) => s as u64,
            CommandID::Activity(s) => 0x1_0000_0000u64 + s as u64,
            CommandID::ChildWorkflowStart(s) => 0x2_0000_0000u64 + s as u64,
            CommandID::ChildWorkflowComplete(s) => 0x3_0000_0000u64 + s as u64,
            CommandID::SignalExternal(s) => 0x4_0000_0000u64 + s as u64,
            CommandID::CancelExternal(s) => 0x5_0000_0000u64 + s as u64,
        }
    }
}

/// The result of running a workflow
pub type WorkflowResult<T> = Result<WfExitValue<T>, anyhow::Error>;

/// Workflow functions may return these values when exiting
#[derive(Debug)]
pub enum WfExitValue<T> {
    /// Continue the workflow as a new execution
    ContinueAsNew(Box<ContinueAsNewWorkflowExecution>),
    /// Confirm the workflow was cancelled (can be automatic in a more advanced iteration)
    Cancelled,
    /// The run was evicted
    Evicted,
    /// Finish with a result
    Normal(T),
}

impl<T> WfExitValue<T> {
    /// Construct a [WfExitValue::ContinueAsNew] variant (handles boxing)
    pub fn continue_as_new(can: ContinueAsNewWorkflowExecution) -> (r: Self)
        ensures
            r matches WfExitValue::ContinueAsNew(b) && *b == can,
    {
        WfExitValue::ContinueAsNew(Box::new(can))
    }
}

impl<T> From<T> for WfExitValue<T> {
    /// A plain value is a normal exit with that value
    fn from(v: T) -> (r: Self) {
        WfExitValue::Normal(v)
    }
}

impl<T> vstd::std_specs::convert::FromSpecImpl<T> for WfExitValue<T> {
    open spec fn obeys_from_spec() -> bool {
        true
    }

    open spec fn from_spec(v: T) -> Self {
        WfExitValue::Normal(v)
    }
}

/// An answer from the host that resumes a blocked workflow command
#[derive(Debug, Clone, PartialEq, Eq)]
pub enum UnblockEvent {
    Timer(u32, TimerResult),
    Activity(u32, Box<ActivityResolution>),
    WorkflowStart(u32, Box<ChildWorkflowStartStatus>),
    WorkflowComplete(u32, Box<ChildWorkflowResult>),
    SignalExternal(u32, Option<Failure>),
    CancelExternal(u32, Option<Failure>),
}

/// Result of awaiting on sending a signal to an external workflow
pub type SignalExternalWfResult = Result<SignalExternalOk, Failure>;

/// Result of awaiting on sending a cancel request to an external workflow
pub type CancelExternalWfResult = Result<CancelExternalOk, Failure>;

/// Identifier for cancellable operations
#[derive(Debug, Clone, PartialEq, Eq)]
pub enum CancellableID {
    /// Timer sequence number
    Timer(u32),
    /// Activity sequence number
    Activity(u32),
    /// Activity sequence number
    LocalActivity(u32),
    /// Start child sequence number
    ChildWorkflow(u32),
    /// Signal workflow
    SignalExternalWorkflow(u32),
    /// An external workflow identifier as may have been created by a started child workflow
    ExternalWorkflow {
        /// Sequence number which will be used for the cancel command
        seqnum: u32,
        /// Identifying information about the workflow to be cancelled
        execution: NamespacedWorkflowExecution,
        /// Set to true if this workflow is a child of the issuing workflow
        only_child: bool,
    },
}

/// The commands that block the workflow until the host answers them; these
/// are the commands that have an identifier
pub open spec fn is_blocking_command(v: WorkflowCommandVariant) -> bool {
    match v {
        WorkflowCommandVariant::StartTimer(_) => true,
        WorkflowCommandVariant::ScheduleActivity(_) => true,
        WorkflowCommandVariant::ScheduleLocalActivity(_) => true,
        WorkflowCommandVariant::StartChildWorkflowExecution(_) => true,
        WorkflowCommandVariant::SignalExternalWorkflowExecution(_) => true,
        WorkflowCommandVariant::RequestCancelExternalWorkflowExecution(_) => true,
        WorkflowCommandVariant::CancelTimer(_) => false,
        WorkflowCommandVariant::SetPatchMarker(_) => false,
        WorkflowCommandVariant::Other { .. } => false,
    }
}

/// Whether a command blocks the workflow until the host answers it
pub fn is_blocking(variant: &WorkflowCommandVariant) -> (b: bool)
    ensures
        b == is_blocking_command(*variant),
{
    match variant {
        WorkflowCommandVariant::CancelTimer(_)
        | WorkflowCommandVariant::SetPatchMarker(_)
        | WorkflowCommandVariant::Other { .. } => false,
        _ => true,
    }
}

/// The identifier of a blocking command: its kind and its sequence number
pub open spec fn command_id_of(v: WorkflowCommandVariant) -> CommandID
    recommends
        is_blocking_command(v),
{
    match v {
        WorkflowCommandVariant::StartTimer(c) => CommandID::Timer(c.seq),
        WorkflowCommandVariant::ScheduleActivity(c) => CommandID::Activity(c.seq),
        WorkflowCommandVariant::ScheduleLocalActivity(c) => CommandID::Activity(c.seq),
        WorkflowCommandVariant::StartChildWorkflowExecution(c) => CommandID::ChildWorkflowStart(c.seq),
        WorkflowCommandVariant::SignalExternalWorkflowExecution(c) => CommandID::SignalExternal(c.seq),
        WorkflowCommandVariant::RequestCancelExternalWorkflowExecution(c) => CommandID::CancelExternal(c.seq),
        _ => CommandID::Timer(0),
    }
}

/// The identifier of a blocking command. A patch marker never blocks, and
/// timer cancellation and the other kinds have no identifier: none of them
/// may be passed.
pub fn cmd_id_from_variant(variant: &WorkflowCommandVariant) -> (id: CommandID)
    requires
        is_blocking_command(*variant),
    ensures
        id == command_id_of(*variant),
{
    match variant {
        WorkflowCommandVariant::StartTimer(c) => CommandID::Timer(c.seq),
        WorkflowCommandVariant::ScheduleActivity(c) => CommandID::Activity(c.seq),
        WorkflowCommandVariant::ScheduleLocalActivity(c) => CommandID::Activity(c.seq),
        WorkflowCommandVariant::StartChildWorkflowExecution(req) => {
            let seq = req.seq;
            CommandID::ChildWorkflowStart(seq)
        },
        WorkflowCommandVariant::SignalExternalWorkflowExecution(req) => CommandID::SignalExternal(req.seq),
        WorkflowCommandVariant::RequestCancelExternalWorkflowExecution(req) => CommandID::CancelExternal(req.seq),
        WorkflowCommandVariant::CancelTimer(_)
        | WorkflowCommandVariant::SetPatchMarker(_)
        | WorkflowCommandVariant::Other { .. } => vstd::pervasive::unreached(),
    }
}

/// The commands that wait for the host's answer are exactly timers, scheduled
/// and local activities, child workflow starts, and signals and cancel
/// requests to other workflows. Each is named by its kind and its sequence
/// number, and both kinds of activity by the activity identifier. Timer
/// cancellations, patch markers and every other command do not wait.
pub proof fn lemma_blocking_commands_and_their_ids(v: WorkflowCommandVariant)
    ensures
        v matches WorkflowCommandVariant::StartTimer(c) ==> is_blocking_command(v)
            && command_id_of(v) == CommandID::Timer(c.seq),
        v matches WorkflowCommandVariant::ScheduleActivity(c) ==> is_blocking_command(v)
            && command_id_of(v) == CommandID::Activity(c.seq),
        v matches WorkflowCommandVariant::ScheduleLocalActivity(c) ==> is_blocking_command(v)
            && command_id_of(v) == CommandID::Activity(c.seq),
        v matches WorkflowCommandVariant::StartChildWorkflowExecution(c) ==> is_blocking_command(v)
            && command_id_of(v) == CommandID::ChildWorkflowStart(c.seq),
        v matches WorkflowCommandVariant::SignalExternalWorkflowExecution(c) ==> is_blocking_command(
            v,
        ) && command_id_of(v) == CommandID::SignalExternal(c.seq),
        v matches WorkflowCommandVariant::RequestCancelExternalWorkflowExecution(c)
            ==> is_blocking_command(v) && command_id_of(v) == CommandID::CancelExternal(c.seq),
        v is CancelTimer ==> !is_blocking_command(v),
        v is SetPatchMarker ==> !is_blocking_command(v),
        v is Other ==> !is_blocking_command(v),
{
}

/// Two identifiers are filed under the same key only if they are equal.
pub proof fn lemma_command_key_injective(a: CommandID, b: CommandID)
    ensures
        a.key() == b.key() <==> a == b,
        CommandID::from_key(a.key()) == a,
{
}

} // verus!
