use temporal_workflow_interface::binding::{self, WasmUnblock, WasmWfCmd};
use temporal_workflow_interface::interface::{CommandID, TimerResult, UnblockEvent};
use temporal_workflow_interface::proto::{ScheduleActivity, StartTimer, WorkflowCommandVariant};
use temporal_workflow_interface::registry::{
    add_cmd_to_unblock_map, gather_new_command, unblock, unblock_id, UnblockMap,
};

fn timer(seq: u32) -> WorkflowCommandVariant {
    WorkflowCommandVariant::StartTimer(StartTimer { seq, start_to_fire_timeout: None })
}

#[test]
fn registered_timer_is_resumed_by_its_answer() {
    let mut map: UnblockMap<&str> = UnblockMap::new();
    add_cmd_to_unblock_map(&mut map, &timer(1), "first");
    add_cmd_to_unblock_map(&mut map, &timer(2), "second");
    let got = unblock(&mut map, WasmUnblock::Timer(2, binding::TimerResult::Fired));
    assert_eq!(got, ("second", UnblockEvent::Timer(2, TimerResult::Fired)));
    assert!(!map.contains(CommandID::Timer(2)));
    assert!(map.contains(CommandID::Timer(1)));
}

#[test]
fn unknown_answer_finds_nothing() {
    let mut map: UnblockMap<u8> = UnblockMap::new();
    add_cmd_to_unblock_map(&mut map, &timer(1), 1);
    let id = unblock_id(&WasmUnblock::Timer(9, binding::TimerResult::Cancelled));
    assert!(!map.contains(id));
    assert!(map.contains(CommandID::Timer(1)));
}

#[test]
fn answer_is_taken_once() {
    let mut map: UnblockMap<u8> = UnblockMap::new();
    add_cmd_to_unblock_map(&mut map, &timer(4), 7);
    let ub = WasmUnblock::Timer(4, binding::TimerResult::Fired);
    assert_eq!(unblock(&mut map, ub).0, 7);
    assert!(!map.contains(unblock_id(&ub)));
}

#[test]
fn timer_and_activity_with_same_seq_are_apart() {
    let mut map: UnblockMap<u8> = UnblockMap::new();
    add_cmd_to_unblock_map(&mut map, &WorkflowCommandVariant::ScheduleActivity(ScheduleActivity { seq: 1, fields: vec![] }), 10);
    assert!(map.contains(CommandID::Activity(1)));
    assert!(!map.contains(CommandID::Timer(1)));
    assert!(!map.contains(unblock_id(&WasmUnblock::Timer(1, binding::TimerResult::Fired))));
}

#[test]
fn gathering_files_and_encodes() {
    let mut map: UnblockMap<u8> = UnblockMap::new();
    let out = gather_new_command(&mut map, timer(1), 3);
    match out {
        WasmWfCmd::NewCmd(req) => assert_eq!(req.wf_cmd_variant_proto, vec![0x0A, 0x02, 0x08, 0x01]),
    }
    assert!(map.contains(CommandID::Timer(1)));
}

#[test]
fn answer_names_its_command() {
    assert_eq!(unblock_id(&WasmUnblock::Timer(3, binding::TimerResult::Fired)), CommandID::Timer(3));
}

#[test]
fn map_insert_replaces_and_remove_takes() {
    let mut map: UnblockMap<u8> = UnblockMap::new();
    map.insert(CommandID::SignalExternal(2), 1);
    map.insert(CommandID::SignalExternal(2), 2);
    assert_eq!(map.remove(CommandID::SignalExternal(2)), Some(2));
    assert_eq!(map.remove(CommandID::SignalExternal(2)), None);
}
