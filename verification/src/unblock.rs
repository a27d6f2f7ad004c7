//! Turning the host's answer to a blocking command into the value that the
//! waiting workflow code receives.

use vstd::prelude::*;

use crate::interface::{
    CancelExternalOk, CancelExternalWfResult, SignalExternalOk, SignalExternalWfResult,
    TimerResult, UnblockEvent,
};
use crate::proto::{ActivityResolution, ChildWorkflowResult, ChildWorkflowStartStatus, Failure};

verus! {

/// What a started child workflow shares with the handle that awaits its result
#[derive(Debug, Clone, PartialEq, Eq)]
pub struct ChildWfCommon {
    pub workflow_id: String,
}

/// A child workflow whose start the server has answered
#[derive(Debug, Clone, PartialEq, Eq)]
pub struct PendingChildWorkflow {
    pub status: ChildWorkflowStartStatus,
    pub common: ChildWfCommon,
}

/// A value that a waiting workflow receives when the host answers the command
/// it waits on. Each kind of value is made from one kind of event; handing it
/// any other event is a caller's error.
pub trait Unblockable: Sized {
    /// Data that the waiting side supplies besides the event
    type OtherDat;

    /// The events from which a value of this kind is made
    spec fn accepts(ue: UnblockEvent) -> bool;

    /// The value made from an accepted event
    spec fn unblocked(ue: UnblockEvent, od: Self::OtherDat) -> Self;

    fn unblock(ue: UnblockEvent, od: Self::OtherDat) -> (r: Self)
        requires
            Self::accepts(ue),
        ensures
            r == Self::unblocked(ue, od),
    ;
}

impl Unblockable for TimerResult {
    type OtherDat = ();

    open spec fn accepts(ue: UnblockEvent) -> bool {
        ue is Timer
    }

    open spec fn unblocked(ue: UnblockEvent, od: ()) -> TimerResult {
        ue->Timer_1
    }

    fn unblock(ue: UnblockEvent, od: ()) -> (r: TimerResult)
        ensures
            ue matches UnblockEvent::Timer(_, t) ==> r == t,
    {
        match ue {
            UnblockEvent::Timer(_, result) => result,
            _ => vstd::pervasive::unreached(),
        }
    }
}

impl Unblockable for ActivityResolution {
    type OtherDat = ();

    open spec fn accepts(ue: UnblockEvent) -> bool {
        ue is Activity
    }

    open spec fn unblocked(ue: UnblockEvent, od: ()) -> ActivityResolution {
        *ue->Activity_1
    }

    fn unblock(ue: UnblockEvent, od: ()) -> (r: ActivityResolution)
        ensures
            ue matches UnblockEvent::Activity(_, res) ==> r == *res,
    {
        match ue {
            UnblockEvent::Activity(_, result) => *result,
            _ => vstd::pervasive::unreached(),
        }
    }
}

impl Unblockable for PendingChildWorkflow {
    type OtherDat = ChildWfCommon;

    open spec fn accepts(ue: UnblockEvent) -> bool {
        ue is WorkflowStart
    }

    open spec fn unblocked(ue: UnblockEvent, od: ChildWfCommon) -> PendingChildWorkflow {
        PendingChildWorkflow { status: *ue->WorkflowStart_1, common: od }
    }

    fn unblock(ue: UnblockEvent, od: ChildWfCommon) -> (r: PendingChildWorkflow)
        ensures
            ue matches UnblockEvent::WorkflowStart(_, st) ==> r.status == *st && r.common == od,
    {
        match ue {
            UnblockEvent::WorkflowStart(_, result) => PendingChildWorkflow { status: *result, common: od },
            _ => vstd::pervasive::unreached(),
        }
    }
}

impl Unblockable for ChildWorkflowResult {
    type OtherDat = ();

    open spec fn accepts(ue: UnblockEvent) -> bool {
        ue is WorkflowComplete
    }

    open spec fn unblocked(ue: UnblockEvent, od: ()) -> ChildWorkflowResult {
        *ue->WorkflowComplete_1
    }

    fn unblock(ue: UnblockEvent, od: ()) -> (r: ChildWorkflowResult)
        ensures
            ue matches UnblockEvent::WorkflowComplete(_, res) ==> r == *res,
    {
        match ue {
            UnblockEvent::WorkflowComplete(_, result) => *result,
            _ => vstd::pervasive::unreached(),
        }
    }
}

/// No failure means success; a failure is the error
pub open spec fn outcome_of<T>(ok: T, maybefail: Option<Failure>) -> Result<T, Failure> {
    match maybefail {
        Some(f) => Err(f),
        None => Ok(ok),
    }
}

impl Unblockable for SignalExternalWfResult {
    type OtherDat = ();

    open spec fn accepts(ue: UnblockEvent) -> bool {
        ue is SignalExternal
    }

    open spec fn unblocked(ue: UnblockEvent, od: ()) -> SignalExternalWfResult {
        outcome_of(SignalExternalOk, ue->SignalExternal_1)
    }

    fn unblock(ue: UnblockEvent, od: ()) -> (r: SignalExternalWfResult)
        ensures
            ue matches UnblockEvent::SignalExternal(_, None) ==> r == Ok::<SignalExternalOk, Failure>(SignalExternalOk),
            ue matches UnblockEvent::SignalExternal(_, Some(f)) ==> r == Err::<SignalExternalOk, Failure>(f),
    {
        match ue {
            UnblockEvent::SignalExternal(_, maybefail) => match maybefail {
                Some(f) => Err(f),
                None => Ok(SignalExternalOk),
            },
            _ => vstd::pervasive::unreached(),
        }
    }
}

impl Unblockable for CancelExternalWfResult {
    type OtherDat = ();

    open spec fn accepts(ue: UnblockEvent) -> bool {
        ue is CancelExternal
    }

    open spec fn unblocked(ue: UnblockEvent, od: ()) -> CancelExternalWfResult {
        outcome_of(CancelExternalOk, ue->CancelExternal_1)
    }

    fn unblock(ue: UnblockEvent, od: ()) -> (r: CancelExternalWfResult)
        ensures
            ue matches UnblockEvent::CancelExternal(_, None) ==> r == Ok::<CancelExternalOk, Failure>(CancelExternalOk),
            ue matches UnblockEvent::CancelExternal(_, Some(f)) ==> r == Err::<CancelExternalOk, Failure>(f),
    {
        match ue {
            UnblockEvent::CancelExternal(_, maybefail) => match maybefail {
                Some(f) => Err(f),
                None => Ok(CancelExternalOk),
            },
            _ => vstd::pervasive::unreached(),
        }
    }
}

/// What waiting code receives is what the host sent: a timer's result, an
/// activity's resolution and a child's result unchanged, a child's start
/// status with the data the waiting side supplied, and for a signal or a
/// cancel request success exactly when no failure came, the failure
/// otherwise. Each kind of value is made from its own kind of event only.
pub proof fn lemma_unblock_delivers_what_was_sent(
    s: u32,
    t: TimerResult,
    act: ActivityResolution,
    st: ChildWorkflowStartStatus,
    common: ChildWfCommon,
    res: ChildWorkflowResult,
    f: Failure,
)
    ensures
        <TimerResult as Unblockable>::accepts(UnblockEvent::Timer(s, t)),
        <TimerResult as Unblockable>::unblocked(UnblockEvent::Timer(s, t), ()) == t,
        <ActivityResolution as Unblockable>::accepts(UnblockEvent::Activity(s, Box::new(act))),
        <ActivityResolution as Unblockable>::unblocked(UnblockEvent::Activity(s, Box::new(act)), ())
            == act,
        <PendingChildWorkflow as Unblockable>::accepts(UnblockEvent::WorkflowStart(s, Box::new(st))),
        <PendingChildWorkflow as Unblockable>::unblocked(
            UnblockEvent::WorkflowStart(s, Box::new(st)),
            common,
        ) == (PendingChildWorkflow { status: st, common }),
        <ChildWorkflowResult as Unblockable>::accepts(UnblockEvent::WorkflowComplete(s, Box::new(res))),
        <ChildWorkflowResult as Unblockable>::unblocked(
            UnblockEvent::WorkflowComplete(s, Box::new(res)),
            (),
        ) == res,
        <SignalExternalWfResult as Unblockable>::unblocked(UnblockEvent::SignalExternal(s, None), ())
            == Ok::<SignalExternalOk, Failure>(SignalExternalOk),
        <SignalExternalWfResult as Unblockable>::unblocked(UnblockEvent::SignalExternal(s, Some(f)), ())
            == Err::<SignalExternalOk, Failure>(f),
        <CancelExternalWfResult as Unblockable>::unblocked(UnblockEvent::CancelExternal(s, None), ())
            == Ok::<CancelExternalOk, Failure>(CancelExternalOk),
        <CancelExternalWfResult as Unblockable>::unblocked(UnblockEvent::CancelExternal(s, Some(f)), ())
            == Err::<CancelExternalOk, Failure>(f),
        !<TimerResult as Unblockable>::accepts(UnblockEvent::Activity(s, Box::new(act))),
        !<ActivityResolution as Unblockable>::accepts(UnblockEvent::Timer(s, t)),
        !<ChildWorkflowResult as Unblockable>::accepts(UnblockEvent::WorkflowStart(s, Box::new(st))),
        !<PendingChildWorkflow as Unblockable>::accepts(UnblockEvent::WorkflowComplete(s, Box::new(res))),
        <SignalExternalWfResult as Unblockable>::accepts(UnblockEvent::SignalExternal(s, None)),
        !<SignalExternalWfResult as Unblockable>::accepts(UnblockEvent::CancelExternal(s, None)),
        <CancelExternalWfResult as Unblockable>::accepts(UnblockEvent::CancelExternal(s, None)),
        !<CancelExternalWfResult as Unblockable>::accepts(UnblockEvent::SignalExternal(s, None)),
{
}

} // verus!
