use arrayvec::ArrayVec;
use lagarto_ctrl::cache::{CacheFx, CacheResult};
use lagarto_ctrl::client::{sync_has_changes, CycleSyncAction, ErrorOutbox, NextEvent};
use lagarto_ctrl::cycle::{
    begin_run, cycle_at, cycle_count, cycles_sorted_by_type, end_stopped_run, resume_run, schedule_next_run, Cycle, CycleList,
    Schedule, SyncOp,
};
use lagarto_ctrl::sector_queue::run_sectors;
use lagarto_ctrl::shelly_topic::{chars_between, shelly_topic_parts};
use lagarto_ctrl::valve::run_status_after;
use lagarto_ctrl::cycle_type::CycleType;
use lagarto_ctrl::engine::{Action, WtrCtl};
use lagarto_ctrl::mqtt_link::MAX_CACHE_SIZE;
use lagarto_ctrl::ptr_list::{ptr_count, ptr_entry};
use lagarto_ctrl::rega::{Command, CtrlTime, Mode, RunningPtr, State, WateringStatus};
use lagarto_ctrl::run_plan::{plan_run, schedule_runs};

fn sched(start: u64) -> Schedule {
    Schedule {
        start: CtrlTime(start),
        repeat_kind: 0,
        repeat_spec_wd: 0,
        repeat_every_qty: 1,
        repeat_every_unit: 0,
        stop_condition: 0,
        stop_retries: 0,
        stop_date_ts: CtrlTime(0),
        retries_count: 0,
    }
}

fn cycle(id: u32, name: &str, t: CycleType) -> Cycle {
    let mut c = Cycle::new(sched(1000), name.to_string(), 0, CtrlTime(0), t);
    c.run.cycle_id = id;
    c
}

fn client(id: u32, name: &str, op: SyncOp) -> Cycle {
    let mut c = cycle(id, name, CycleType::Standard);
    c.op = op;
    c.run.run_id = 7;
    c
}

/// A machine in manual mode with the wizard, the direct and one standard
/// cycle (id 10), indexed.
fn machine() -> (WtrCtl, CycleList) {
    let mut l: CycleList = ArrayVec::new();
    l.push(cycle(1, "w", CycleType::Wizard));
    l.push(cycle(2, "d", CycleType::Direct));
    l.push(cycle(10, "s", CycleType::Standard));
    let mut c = WtrCtl::new(State::ManWait, Mode::Manual);
    c.index_cycles(&mut l);
    (c, l)
}

/// The ids the cycles keep when added.
fn ids(cs: &Vec<Cycle>) -> Vec<u32> {
    cs.iter().map(|c| c.run.cycle_id).collect()
}

fn run(c: &mut WtrCtl, cmd: Command, time: u64) -> Action {
    let step = c.dispatch(&cmd, CtrlTime(time), true);
    let (next, _) = c.complete(step, false);
    c.state = next;
    step.action
}

#[test]
fn a_new_client_cycle_is_added_and_registered_under_its_id() {
    let (mut c, mut l) = machine();
    let mut out = ErrorOutbox::new();
    let cs = vec![client(20, "novo", SyncOp::I)];
    let nexts = vec![NextEvent::At(CtrlTime(5000))];
    assert!(c.client_sync_ok(&l, &cs, &nexts, &ids(&cs), CtrlTime(100)));
    let changed = c.apply_client_cycles(&mut l, cs.clone(), &nexts, &ids(&cs), CtrlTime(100), &mut out);
    assert!(changed);
    assert_eq!(l.len(), 4);
    // the binary search finds the standard cycle already there and puts the new one before it
    assert_eq!(l[2].run.cycle_id, 20);
    assert_eq!(l[2].schedule.start, CtrlTime(5000));
    assert_eq!(l[2].run.run_id, 0);
    assert_eq!(l[3].run.cycle_id, 10);
    assert_eq!(c.std_ptrs.as_slice(), &[(10, 2), (20, 2)]);
    assert!(out.errors.is_empty());
}

#[test]
fn an_added_cycle_is_stored_under_the_id_the_database_gave_it() {
    let (mut c, mut l) = machine();
    let mut out = ErrorOutbox::new();
    let cs = vec![client(20, "novo", SyncOp::I)];
    let nexts = vec![NextEvent::At(CtrlTime(5000))];
    assert_eq!(c.client_cycle_action(&l, &cs[0], nexts[0], CtrlTime(100)), CycleSyncAction::Add(CtrlTime(5000)));
    assert!(c.client_cycle_ok(&l, &cs[0], nexts[0], CtrlTime(100)));
    assert!(c.apply_client_cycle(&mut l, cs[0].clone(), nexts[0], CtrlTime(100), 77, &mut out));
    assert_eq!(l[2].run.cycle_id, 77);
    assert_eq!(c.std_ptrs.as_slice(), &[(10, 2), (77, 2)]);
    let mut c2 = machine().0;
    let mut l2 = machine().1;
    assert!(c2.apply_client_cycles(&mut l2, cs, &nexts, &vec![78], CtrlTime(100), &mut out));
    assert_eq!(c2.std_ptrs.as_slice(), &[(10, 2), (78, 2)]);
}

#[test]
fn a_client_cycle_without_a_future_run_is_ignored() {
    let (mut c, mut l) = machine();
    let mut out = ErrorOutbox::new();
    let cs = vec![client(20, "novo", SyncOp::I), client(21, "outro", SyncOp::I)];
    let nexts = vec![NextEvent::At(CtrlTime(50)), NextEvent::NoEvent];
    let changed = c.apply_client_cycles(&mut l, cs.clone(), &nexts, &ids(&cs), CtrlTime(100), &mut out);
    assert!(!changed);
    assert_eq!(l.len(), 3);
}

#[test]
fn duplicated_and_invalid_client_cycles_are_reported_last_first() {
    let (mut c, mut l) = machine();
    let mut out = ErrorOutbox::new();
    let cs = vec![client(10, "s", SyncOp::I), client(30, "mau", SyncOp::I)];
    let nexts = vec![NextEvent::At(CtrlTime(5000)), NextEvent::Invalid];
    let changed = c.apply_client_cycles(&mut l, cs.clone(), &nexts, &ids(&cs), CtrlTime(100), &mut out);
    assert!(!changed);
    assert_eq!(
        out.errors,
        vec!["Error updating cycle schedule: mau".to_string(), "The client sent a cycle that already exists.".to_string()]
    );
}

#[test]
fn a_deleted_client_cycle_leaves_both_lists() {
    let (mut c, mut l) = machine();
    let mut out = ErrorOutbox::new();
    let cs = vec![client(10, "s", SyncOp::D)];
    let nexts = vec![NextEvent::NoEvent];
    assert!(c.client_sync_ok(&l, &cs, &nexts, &ids(&cs), CtrlTime(100)));
    assert!(c.apply_client_cycles(&mut l, cs.clone(), &nexts, &ids(&cs), CtrlTime(100), &mut out));
    assert_eq!(l.len(), 2);
    assert_eq!(ptr_count(&c.std_ptrs), 0);
}

#[test]
fn an_updated_client_cycle_takes_the_client_data_and_its_next_start() {
    let (mut c, mut l) = machine();
    let mut out = ErrorOutbox::new();
    let cs = vec![client(10, "renomeado", SyncOp::U)];
    let nexts = vec![NextEvent::At(CtrlTime(8000))];
    assert!(c.apply_client_cycles(&mut l, cs.clone(), &nexts, &ids(&cs), CtrlTime(100), &mut out));
    assert_eq!(l[2].name, "renomeado");
    assert_eq!(l[2].schedule.start, CtrlTime(8000));
    assert_eq!(l[2].run.run_id, 0);
    assert_eq!(l[2].ptr, Some(2));
}

#[test]
fn an_update_with_an_invalid_schedule_is_reported_and_changes_nothing_else() {
    let (mut c, mut l) = machine();
    let mut out = ErrorOutbox::new();
    let cs = vec![client(10, "renomeado", SyncOp::U)];
    let nexts = vec![NextEvent::Invalid];
    assert!(!c.apply_client_cycles(&mut l, cs.clone(), &nexts, &ids(&cs), CtrlTime(100), &mut out));
    assert_eq!(l[2].name, "renomeado");
    assert_eq!(out.errors, vec!["Error updating cycle schedule: renomeado".to_string()]);
}

#[test]
fn client_cycles_are_not_applied_outside_manual_mode() {
    let (mut c, mut l) = machine();
    c.mode = Mode::Standard;
    let mut out = ErrorOutbox::new();
    let cs = vec![client(20, "novo", SyncOp::I)];
    let nexts = vec![NextEvent::At(CtrlTime(5000))];
    assert!(!c.apply_client_cycles(&mut l, cs.clone(), &nexts, &ids(&cs), CtrlTime(100), &mut out));
    assert_eq!(l.len(), 3);
    assert_eq!(c.std_ptrs.as_slice(), &[(10, 2)]);
}

#[test]
fn deleting_an_unknown_cycle_cannot_be_applied() {
    let (c, l) = machine();
    let cs = vec![client(99, "x", SyncOp::D)];
    let nexts = vec![NextEvent::NoEvent];
    assert!(!c.client_sync_ok(&l, &cs, &nexts, &ids(&cs), CtrlTime(100)));
}

#[test]
fn list_accessors_give_the_entries() {
    let (c, l) = machine();
    assert_eq!(cycle_count(&l), 3);
    assert_eq!(cycle_at(&l, 2).run.cycle_id, 10);
    assert!(cycles_sorted_by_type(&l));
    assert_eq!(ptr_count(&c.std_ptrs), 1);
    assert_eq!(ptr_entry(&c.std_ptrs, 0), (10, 2));
}

#[test]
fn sector_runs_follow_one_another_with_the_pump_rest() {
    assert_eq!(plan_run(CtrlTime(100), 50, 10), (CtrlTime(100), CtrlTime(150), CtrlTime(160)));
    let runs = schedule_runs(CtrlTime(100), &vec![50, 0, 30], 10);
    assert_eq!(runs, vec![(CtrlTime(100), CtrlTime(150)), (CtrlTime(160), CtrlTime(160)), (CtrlTime(170), CtrlTime(200))]);
    for w in runs.windows(2) {
        assert!(w[0].1 .0 + 10 <= w[1].0 .0);
    }
}

#[test]
fn a_run_begins_and_resumes() {
    let mut c = cycle(10, "s", CycleType::Standard);
    c.run.run_id = 4;
    c.run.end = CtrlTime(9);
    let start = begin_run(&mut c, Some(CtrlTime(700)));
    assert_eq!(start, CtrlTime(700));
    assert_eq!(c.schedule.start, CtrlTime(700));
    assert_eq!(c.run.run_id, 5);
    assert_eq!(c.run.start, CtrlTime(700));
    assert_eq!(c.run.status, WateringStatus::Running);
    assert_eq!(c.run.end, CtrlTime(0));
    assert_eq!(c.last_change, CtrlTime(700));
    assert_eq!(begin_run(&mut c, None), CtrlTime(700));
    c.run.status = WateringStatus::Suspended;
    c.run.end = CtrlTime(800);
    resume_run(&mut c, CtrlTime(900));
    assert_eq!(c.run.status, WateringStatus::Running);
    assert_eq!(c.run.end, CtrlTime(0));
    assert_eq!(c.last_change, CtrlTime(900));
}

#[test]
fn shutdown_and_error_commands_leave_establish_mode_for_their_states() {
    let mut c = WtrCtl::new(State::EstablishMode, Mode::Manual);
    run(&mut c, Command::ShutDown, 0);
    assert_eq!(c.state, State::Shutdown);
    let mut c = WtrCtl::new(State::EstablishMode, Mode::Manual);
    run(&mut c, Command::Error, 0);
    assert_eq!(c.state, State::Error);
}

#[test]
fn terminating_queues_the_shutdown() {
    let mut c = WtrCtl::new(State::StdWait, Mode::Standard);
    c.terminate();
    assert_eq!(c.cmd_queue.front(), Some(&Command::ShutDown));
    let cmd = c.cmd_queue.pop_front().unwrap();
    run(&mut c, cmd, 0);
    assert_eq!(c.state, State::Shutdown);
    assert!(c.cmd_queue.is_empty());
}

#[test]
fn stopping_the_wizard_sector_returns_to_the_cycle() {
    let mut c = WtrCtl::new(State::WzrWtrSector, Mode::Wizard);
    c.active_ptrs = RunningPtr { cycle: Some(0), sec_id: Some(1), run_sec_ptr: Some(0) };
    c.wtr_secs.push_back((2, 1));
    let ptrs = c.active_ptrs;
    let action = run(&mut c, Command::StopSector(ptrs), 0);
    assert_eq!(action, Action::StopSector);
    assert_eq!(c.state, State::WzrWtrCycle);
    assert!(c.changed);
}

#[test]
fn a_consistent_cache_forgets_its_oldest_identifier() {
    let mut cache = CacheFx::with_capacity(2);
    assert_eq!(cache.push("a"), CacheResult::Inserted);
    assert_eq!(cache.push("b"), CacheResult::Inserted);
    cache.capacity = 1;
    cache.pop_oldest();
    assert_eq!(cache.order, vec!["b".to_string()]);
    assert!(!cache.contains("a"));
    assert!(cache.contains("b"));
}

#[test]
fn a_message_repeated_after_other_messages_is_still_a_duplicate() {
    let mut cache = CacheFx::with_capacity(MAX_CACHE_SIZE);
    assert_eq!(cache.push("u"), CacheResult::Inserted);
    for i in 0..(MAX_CACHE_SIZE - 1) {
        assert_eq!(cache.push(&format!("m{}", i)), CacheResult::Inserted);
    }
    assert_eq!(cache.push("u"), CacheResult::Duplicate);
    assert_eq!(cache.push("m-last"), CacheResult::Inserted);
    assert_eq!(cache.push("u"), CacheResult::Inserted);
}

#[test]
fn a_message_repeated_after_many_repeats_of_fewer_other_identifiers_is_a_duplicate() {
    let mut cache = CacheFx::with_capacity(MAX_CACHE_SIZE);
    assert_eq!(cache.push("u"), CacheResult::Inserted);
    for round in 0..3 {
        for i in 0..(MAX_CACHE_SIZE - 1) {
            let r = cache.push(&format!("m{}", i));
            assert_eq!(r, if round == 0 { CacheResult::Inserted } else { CacheResult::Duplicate });
        }
    }
    assert_eq!(cache.push("u"), CacheResult::Duplicate);
}

#[test]
fn a_stopped_run_is_closed_and_the_next_one_scheduled() {
    let mut c = cycle(10, "s", CycleType::Standard);
    c.run.run_id = 3;
    c.schedule.retries_count = 1;
    end_stopped_run(&mut c, WateringStatus::Terminated, CtrlTime(2000));
    assert_eq!(c.run.end, CtrlTime(2000));
    assert_eq!(c.run.status, WateringStatus::Terminated);
    assert_eq!(c.last_run, CtrlTime(1000));
    assert_eq!(c.last_change, CtrlTime(2000));
    assert_eq!(c.schedule.retries_count, 2);
    schedule_next_run(&mut c, NextEvent::At(CtrlTime(9000)));
    assert_eq!(c.schedule.start, CtrlTime(9000));
    assert_eq!(c.run.start, CtrlTime(9000));
    assert_eq!(c.run.run_id, 4);
    schedule_next_run(&mut c, NextEvent::NoEvent);
    assert_eq!(c.schedule.start, CtrlTime(9000));
    assert_eq!(c.run.run_id, 5);
}

#[test]
fn a_cycle_runs_the_forced_sector_or_the_enabled_ones() {
    let sectors = vec![(0, true), (1, false), (2, true)];
    assert_eq!(run_sectors(None, &sectors), vec![0, 2]);
    assert_eq!(run_sectors(Some(1), &sectors), vec![1]);
    assert_eq!(run_sectors(None, &vec![]), Vec::<u8>::new());
}

#[test]
fn a_failed_valve_puts_the_run_in_error() {
    assert_eq!(run_status_after(true, WateringStatus::Running), WateringStatus::Error);
    assert_eq!(run_status_after(false, WateringStatus::Suspended), WateringStatus::Suspended);
}

#[test]
fn changes_are_sent_when_anything_changed() {
    assert!(!sync_has_changes(0, 0, 0, false));
    assert!(sync_has_changes(0, 1, 0, false));
    assert!(sync_has_changes(0, 0, 0, true));
}

#[test]
fn the_device_id_comes_from_the_first_dash_of_the_topic() {
    let t: Vec<char> = "shelly1-ABC123/relay/0".chars().collect();
    let (id, kind) = shelly_topic_parts(&t).unwrap();
    assert_eq!(id.into_iter().collect::<String>(), "-ABC1");
    assert!(kind.is_empty());
    // a dash past position 12 leaves no identifier
    let late: Vec<char> = "shellies/shelly1-ABC123".chars().collect();
    assert!(shelly_topic_parts(&late).unwrap().0.is_empty());
    let none: Vec<char> = "shellies/announce".chars().collect();
    assert!(shelly_topic_parts(&none).is_none());
    let s: Vec<char> = "abcdef".chars().collect();
    assert_eq!(chars_between(&s, 2, 10).into_iter().collect::<String>(), "cdef");
    assert!(chars_between(&s, 4, 2).is_empty());
}
