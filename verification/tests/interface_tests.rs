use temporal_workflow_interface::interface::{
    cmd_id_from_variant, is_blocking, CancelExternalOk, CancelExternalWfResult, CommandID, SignalExternalOk,
    SignalExternalWfResult, TimerResult, UnblockEvent, WfExitValue,
};
use temporal_workflow_interface::proto::{
    ActivityResolution, ActivityResolutionStatus, CancelTimer, SetPatchMarker, ChildWorkflowResult, ChildWorkflowResultStatus,
    ChildWorkflowStartStatus, ContinueAsNewWorkflowExecution, Failure, Payload,
    RequestCancelExternalWorkflowExecution, ScheduleActivity, ScheduleLocalActivity,
    SignalExternalWorkflowExecution, StartChildWorkflowExecution, StartTimer,
    WorkflowCommandVariant,
};
use temporal_workflow_interface::unblock::{ChildWfCommon, PendingChildWorkflow, Unblockable};

fn failure(msg: &str) -> Failure {
    Failure { message: msg.to_string(), source: "test".to_string(), stack_trace: String::new() }
}

#[test]
fn command_ids_follow_kind_and_seq() {
    let cases = vec![
        (WorkflowCommandVariant::StartTimer(StartTimer { seq: 7, start_to_fire_timeout: None }), CommandID::Timer(7)),
        (WorkflowCommandVariant::ScheduleActivity(ScheduleActivity { seq: 3, fields: vec![] }), CommandID::Activity(3)),
        (WorkflowCommandVariant::ScheduleLocalActivity(ScheduleLocalActivity { seq: 4, fields: vec![] }), CommandID::Activity(4)),
        (
            WorkflowCommandVariant::StartChildWorkflowExecution(StartChildWorkflowExecution { seq: 5, fields: vec![] }),
            CommandID::ChildWorkflowStart(5),
        ),
        (
            WorkflowCommandVariant::SignalExternalWorkflowExecution(SignalExternalWorkflowExecution { seq: 6, fields: vec![] }),
            CommandID::SignalExternal(6),
        ),
        (
            WorkflowCommandVariant::RequestCancelExternalWorkflowExecution(
                RequestCancelExternalWorkflowExecution { seq: 8, fields: vec![] },
            ),
            CommandID::CancelExternal(8),
        ),
    ];
    for (variant, id) in cases {
        assert_eq!(cmd_id_from_variant(&variant), id);
    }
}

#[test]
fn command_keys_are_distinct() {
    let ids = vec![
        CommandID::Timer(1),
        CommandID::Activity(1),
        CommandID::ChildWorkflowStart(1),
        CommandID::ChildWorkflowComplete(1),
        CommandID::SignalExternal(1),
        CommandID::CancelExternal(1),
        CommandID::Timer(2),
        CommandID::Timer(u32::MAX),
        CommandID::CancelExternal(u32::MAX),
    ];
    for (i, a) in ids.iter().enumerate() {
        for (j, b) in ids.iter().enumerate() {
            assert_eq!(a.to_key() == b.to_key(), i == j);
        }
    }
    assert_eq!(CommandID::Timer(9).to_key(), 9);
    assert_eq!(CommandID::Activity(9).to_key(), 0x1_0000_0009);
    assert_eq!(CommandID::CancelExternal(u32::MAX).to_key(), 0x5_FFFF_FFFF);
}

#[test]
fn continue_as_new_boxes_the_request() {
    let can = ContinueAsNewWorkflowExecution {
        workflow_type: "wf".to_string(),
        task_queue: "q".to_string(),
        arguments: vec![Payload { metadata: vec![], data: vec![1, 2] }],
    };
    let v: WfExitValue<u8> = WfExitValue::continue_as_new(can.clone());
    match v {
        WfExitValue::ContinueAsNew(b) => assert_eq!(*b, can),
        _ => panic!("expected continue-as-new"),
    }
}

#[test]
fn plain_value_is_normal_exit() {
    let v: WfExitValue<String> = "Yay!".to_string().into();
    assert!(matches!(v, WfExitValue::Normal(ref s) if s == "Yay!"));
}

#[test]
fn timer_event_unblocks_timer() {
    assert_eq!(TimerResult::unblock(UnblockEvent::Timer(1, TimerResult::Fired), ()), TimerResult::Fired);
    assert_eq!(
        TimerResult::unblock(UnblockEvent::Timer(2, TimerResult::Cancelled), ()),
        TimerResult::Cancelled
    );
}

#[test]
fn activity_event_unblocks_activity() {
    let res = ActivityResolution {
        status: Some(ActivityResolutionStatus::Completed {
            result: Some(Payload { metadata: vec![], data: vec![9] }),
        }),
    };
    let got = ActivityResolution::unblock(UnblockEvent::Activity(4, Box::new(res.clone())), ());
    assert_eq!(got, res);
}

#[test]
fn start_event_unblocks_pending_child() {
    let status = ChildWorkflowStartStatus::Succeeded { run_id: "run-1".to_string() };
    let common = ChildWfCommon { workflow_id: "child".to_string() };
    let got = PendingChildWorkflow::unblock(UnblockEvent::WorkflowStart(3, Box::new(status.clone())), common.clone());
    assert_eq!(got, PendingChildWorkflow { status, common });
}

#[test]
fn complete_event_unblocks_child_result() {
    let res = ChildWorkflowResult {
        status: Some(ChildWorkflowResultStatus::Failed { failure: Some(failure("child failed")) }),
    };
    let got = ChildWorkflowResult::unblock(UnblockEvent::WorkflowComplete(3, Box::new(res.clone())), ());
    assert_eq!(got, res);
}

#[test]
fn signal_event_without_failure_is_ok() {
    let got = SignalExternalWfResult::unblock(UnblockEvent::SignalExternal(5, None), ());
    assert_eq!(got, Ok(SignalExternalOk));
}

#[test]
fn signal_event_with_failure_is_err() {
    let got = SignalExternalWfResult::unblock(UnblockEvent::SignalExternal(5, Some(failure("nope"))), ());
    assert_eq!(got, Err(failure("nope")));
}

#[test]
fn cancel_event_without_failure_is_ok() {
    let got = CancelExternalWfResult::unblock(UnblockEvent::CancelExternal(6, None), ());
    assert_eq!(got, Ok(CancelExternalOk));
}

#[test]
fn cancel_event_with_failure_is_err() {
    let got = CancelExternalWfResult::unblock(UnblockEvent::CancelExternal(6, Some(failure("gone"))), ());
    assert_eq!(got, Err(failure("gone")));
}

#[test]
fn blocking_commands_are_told_apart() {
    assert!(is_blocking(&WorkflowCommandVariant::StartTimer(StartTimer { seq: 1, start_to_fire_timeout: None })));
    assert!(is_blocking(&WorkflowCommandVariant::ScheduleActivity(ScheduleActivity { seq: 1, fields: vec![] })));
    assert!(!is_blocking(&WorkflowCommandVariant::CancelTimer(CancelTimer { seq: 1 })));
    assert!(!is_blocking(&WorkflowCommandVariant::Other { field: 6, message: vec![] }));
    assert!(!is_blocking(&WorkflowCommandVariant::SetPatchMarker(SetPatchMarker {
        patch_id: "p".to_string(),
        deprecated: false,
    })));
}
