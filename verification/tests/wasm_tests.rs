use temporal_workflow_interface::binding::{self, WasmUnblock, WasmWfResult};
use temporal_workflow_interface::encode::{encode_duration, encode_workflow_command};
use temporal_workflow_interface::interface::{TimerResult, UnblockEvent, WfExitValue, WorkflowResult};
use temporal_workflow_interface::proto::{
    CancelTimer, Duration, ScheduleActivity, ScheduleLocalActivity, SetPatchMarker, StartTimer, WorkflowCommandVariant,
};
use temporal_workflow_interface::runtime::wasm_test;
use temporal_workflow_interface::wasm::{
    encode_wf_cmd, from_wasm_result, to_wasm_result, wasm_unblock_from_event,
};

#[test]
fn timer_results_convert_both_ways() {
    for t in [TimerResult::Cancelled, TimerResult::Fired] {
        let host: binding::TimerResult = t.into();
        let back: TimerResult = host.into();
        assert_eq!(back, t);
    }
    assert_eq!(TimerResult::from(binding::TimerResult::Fired), TimerResult::Fired);
    assert_eq!(binding::TimerResult::from(TimerResult::Cancelled), binding::TimerResult::Cancelled);
}

#[test]
fn unblocks_convert_both_ways() {
    let ub = WasmUnblock::Timer(12, binding::TimerResult::Fired);
    let ev: UnblockEvent = ub.into();
    assert_eq!(ev, UnblockEvent::Timer(12, TimerResult::Fired));
    assert_eq!(wasm_unblock_from_event(ev), ub);
}

#[test]
fn normal_exit_reports_value() {
    let res: WorkflowResult<String> = Ok(WfExitValue::Normal("Yay!".to_string()));
    assert_eq!(to_wasm_result(res), WasmWfResult::Completed("Yay!".to_string()));
}

#[test]
fn error_reports_its_message() {
    let res: WorkflowResult<String> = Err(anyhow::Error::msg("boom"));
    assert_eq!(to_wasm_result(res), WasmWfResult::Error("boom".to_string()));
}

#[test]
fn reported_value_reads_back_as_normal_exit() {
    let r = from_wasm_result(WasmWfResult::Completed(5u32));
    assert!(matches!(r, Ok(WfExitValue::Normal(5))));
}

#[test]
fn reported_error_reads_back_as_error_with_message() {
    let r = from_wasm_result::<u32>(WasmWfResult::Error("bad".to_string()));
    match r {
        Err(e) => assert_eq!(e.to_string(), "bad"),
        Ok(_) => panic!("expected an error"),
    }
}

#[test]
fn report_round_trip() {
    for w in [WasmWfResult::Completed(3u8), WasmWfResult::Error("x".to_string())] {
        assert_eq!(to_wasm_result(from_wasm_result(w.clone())), w);
    }
}

#[test]
fn duration_encoding() {
    assert_eq!(encode_duration(&Duration { seconds: 1, nanos: 0 }), vec![0x08, 0x01]);
    assert_eq!(encode_duration(&Duration { seconds: 0, nanos: 0 }), Vec::<u8>::new());
    assert_eq!(
        encode_duration(&Duration { seconds: 0, nanos: -1 }),
        vec![0x10, 0xFF, 0xFF, 0xFF, 0xFF, 0xFF, 0xFF, 0xFF, 0xFF, 0xFF, 0x01]
    );
}

#[test]
fn start_timer_encoding() {
    let cmd = WorkflowCommandVariant::StartTimer(StartTimer {
        seq: 1,
        start_to_fire_timeout: Some(Duration { seconds: 1, nanos: 0 }),
    });
    assert_eq!(encode_workflow_command(&cmd), vec![0x0A, 0x06, 0x08, 0x01, 0x12, 0x02, 0x08, 0x01]);
    let req = encode_wf_cmd(cmd);
    assert_eq!(req.wf_cmd_variant_proto, vec![0x0A, 0x06, 0x08, 0x01, 0x12, 0x02, 0x08, 0x01]);
}

#[test]
fn multi_byte_varint_encoding() {
    let cmd = WorkflowCommandVariant::ScheduleLocalActivity(ScheduleLocalActivity { seq: 300, fields: vec![] });
    // field 16, length-delimited: key 16 * 8 + 2 = 130 = [0x82, 0x01]
    assert_eq!(encode_workflow_command(&cmd), vec![0x82, 0x01, 0x03, 0x08, 0xAC, 0x02]);
}

#[test]
fn zero_fields_are_left_out() {
    let cmd = WorkflowCommandVariant::CancelTimer(CancelTimer { seq: 0 });
    assert_eq!(encode_workflow_command(&cmd), vec![0x2A, 0x00]);
}

#[test]
fn patch_marker_encoding() {
    let cmd = WorkflowCommandVariant::SetPatchMarker(SetPatchMarker { patch_id: "p1".to_string(), deprecated: true });
    assert_eq!(encode_workflow_command(&cmd), vec![0x52, 0x06, 0x0A, 0x02, b'p', b'1', 0x10, 0x01]);
}

#[test]
fn empty_module_loads() {
    let bytes = [0x00u8, 0x61, 0x73, 0x6D, 0x01, 0x00, 0x00, 0x00];
    assert!(wasm_test(&bytes).is_ok());
}

#[test]
fn garbage_module_is_refused() {
    assert!(wasm_test(&[1, 2, 3, 4]).is_err());
}

#[test]
fn carried_fields_follow_the_sequence_number() {
    // field 2 of the activity: the string "a1"
    let cmd = WorkflowCommandVariant::ScheduleActivity(ScheduleActivity {
        seq: 3,
        fields: vec![0x12, 0x02, b'a', b'1'],
    });
    assert_eq!(encode_workflow_command(&cmd), vec![0x12, 0x06, 0x08, 0x03, 0x12, 0x02, b'a', b'1']);
    let unsequenced = WorkflowCommandVariant::ScheduleActivity(ScheduleActivity {
        seq: 0,
        fields: vec![0x12, 0x01, b'z'],
    });
    assert_eq!(encode_workflow_command(&unsequenced), vec![0x12, 0x03, 0x12, 0x01, b'z']);
}

#[test]
fn other_commands_keep_their_field_and_message() {
    // field 6: completing the workflow, with an empty message
    let cmd = WorkflowCommandVariant::Other { field: 6, message: vec![] };
    assert_eq!(encode_workflow_command(&cmd), vec![0x32, 0x00]);
    let cmd = WorkflowCommandVariant::Other { field: 18, message: vec![0x0A, 0x00] };
    assert_eq!(encode_wf_cmd(cmd).wf_cmd_variant_proto, vec![0x92, 0x01, 0x02, 0x0A, 0x00]);
}

#[test]
fn refused_module_reports_compile_error() {
    let err = wasm_test(&[1, 2, 3, 4]).unwrap_err();
    assert!(!err.to_string().is_empty());
}
