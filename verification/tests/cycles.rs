use arrayvec::ArrayVec;
use lagarto_ctrl::cycle::{
    add_cycle_in_list, cycles_clone_filtered, first_wizard_start, is_new_cycle, refresh_cycle_starts, search_by_type,
    upd_in_mem_cycle_on_end,
    Cycle, CycleList, Schedule, SyncOp, NR_NANOS_IN_A_DAY,
};
use lagarto_ctrl::client::NextEvent;
use lagarto_ctrl::cycle_type::CycleType;
use lagarto_ctrl::engine::WtrCtl;
use lagarto_ctrl::first_cycle::get_first_cycle_time;
use lagarto_ctrl::rega::{CtrlTime, Mode, State, WateringStatus};

fn sched(start: u64) -> Schedule {
    Schedule {
        start: CtrlTime(start),
        repeat_kind: 0,
        repeat_spec_wd: 0,
        repeat_every_qty: 1,
        repeat_every_unit: 0,
        stop_condition: 0,
        stop_retries: 0,
        stop_date_ts: CtrlTime(0),
        retries_count: 0,
    }
}

fn cycle(id: u32, name: &str, t: CycleType, last_change: u64) -> Cycle {
    let mut c = Cycle::new(sched(1000), name.to_string(), 0, CtrlTime(last_change), t);
    c.run.cycle_id = id;
    c
}

fn list(cycles: Vec<Cycle>) -> CycleList {
    let mut l: CycleList = ArrayVec::new();
    for c in cycles {
        l.push(c);
    }
    l
}

#[test]
fn new_cycle_waits_for_its_first_run() {
    let c = Cycle::new(sched(77), "rega".to_string(), 1, CtrlTime(5), CycleType::Standard);
    assert_eq!(c.run.status, WateringStatus::Waiting);
    assert_eq!(c.run.run_id, 0);
    assert_eq!(c.last_change, CtrlTime(5));
    assert_eq!(c.op, SyncOp::I);
    assert_eq!(c.ptr, None);
    assert_eq!(c.sunrise_flg, 1);
    assert_eq!(c.schedule.start, CtrlTime(77));
}

#[test]
fn client_update_keeps_the_run_and_makes_the_cycle_standard() {
    let mut c = cycle(4, "old", CycleType::Wizard, 1);
    c.run.run_id = 9;
    c.ptr = Some(2);
    let mut cli = cycle(4, "new", CycleType::Direct, 50);
    cli.run.end = CtrlTime(300);
    cli.run.run_id = 1;
    cli.op = SyncOp::U;
    c.update_with_cli_info(&cli);
    assert_eq!(c.name, "new");
    assert_eq!(c.op, SyncOp::U);
    assert_eq!(c.run.end, CtrlTime(300));
    assert_eq!(c.run.run_id, 9);
    assert_eq!(c.ptr, Some(2));
    assert_eq!(c.cycle_type, CycleType::Standard);
    assert_eq!(c.last_change, CtrlTime(50));
}

#[test]
fn wizard_cycles_following_the_sunrise_start_at_sunrise() {
    let mut c = cycle(1, "wzrd", CycleType::Wizard, 0);
    c.sunrise_flg = 1;
    assert_eq!(c.resolve_next_event(Mode::Wizard, CtrlTime(100), Some(CtrlTime(500)), CtrlTime(200)), Some(CtrlTime(200)));
    assert_eq!(
        c.resolve_next_event(Mode::Wizard, CtrlTime(300), Some(CtrlTime(500)), CtrlTime(200)),
        Some(CtrlTime(200 + NR_NANOS_IN_A_DAY))
    );
    assert_eq!(c.resolve_next_event(Mode::Standard, CtrlTime(300), Some(CtrlTime(500)), CtrlTime(200)), Some(CtrlTime(500)));
    assert_eq!(c.resolve_next_event(Mode::Wizard, CtrlTime(300), None, CtrlTime(200)), None);
}

#[test]
fn first_wizard_start_is_the_next_sunrise() {
    assert_eq!(first_wizard_start(CtrlTime(500), CtrlTime(100)), CtrlTime(500));
    assert_eq!(first_wizard_start(CtrlTime(500), CtrlTime(501)), CtrlTime(500 + NR_NANOS_IN_A_DAY));
}

#[test]
fn cycle_end_records_the_run() {
    let mut c = cycle(1, "a", CycleType::Standard, 0);
    upd_in_mem_cycle_on_end(&mut c, WateringStatus::Terminated, CtrlTime(900));
    assert_eq!(c.run.end, CtrlTime(900));
    assert_eq!(c.run.status, WateringStatus::Terminated);
    assert_eq!(c.last_run, CtrlTime(1000));
    assert_eq!(c.last_change, CtrlTime(900));
}

#[test]
fn new_cycle_ids_are_those_not_in_the_list() {
    let l = list(vec![cycle(1, "w", CycleType::Wizard, 0), cycle(8, "s", CycleType::Standard, 0)]);
    assert!(!is_new_cycle(&l, 8));
    assert!(is_new_cycle(&l, 2));
}

#[test]
fn cycles_are_kept_ordered_by_kind() {
    let mut l = list(vec![cycle(1, "w", CycleType::Wizard, 0), cycle(8, "s", CycleType::Standard, 0)]);
    assert_eq!(search_by_type(&l, CycleType::Standard), Ok(1));
    assert_eq!(search_by_type(&l, CycleType::Direct), Err(1));
    let p = add_cycle_in_list(&mut l, cycle(3, "d", CycleType::Direct, 0), None);
    assert_eq!(p, 1);
    let kinds: Vec<CycleType> = l.iter().map(|c| c.cycle_type).collect();
    assert_eq!(kinds, vec![CycleType::Wizard, CycleType::Direct, CycleType::Standard]);
    let p = add_cycle_in_list(&mut l, cycle(9, "s2", CycleType::Standard, 0), Some(3));
    assert_eq!(p, 3);
    assert_eq!(l[3].run.cycle_id, 9);
}

#[test]
fn filtered_clone_keeps_the_cycles_changed_after_the_sync() {
    let l = list(vec![cycle(1, "a", CycleType::Wizard, 10), cycle(2, "b", CycleType::Standard, 30), cycle(3, "c", CycleType::Standard, 20)]);
    let f = cycles_clone_filtered(&l, CtrlTime(20));
    assert_eq!(f.len(), 1);
    assert_eq!(f[0].run.cycle_id, 2);
}

#[test]
fn standard_cycles_are_indexed_after_the_internal_ones() {
    let mut l = list(vec![
        cycle(1, "w", CycleType::Wizard, 0),
        cycle(2, "d", CycleType::Direct, 0),
        cycle(11, "s1", CycleType::Standard, 0),
        cycle(12, "s2", CycleType::Standard, 0),
    ]);
    let mut c = WtrCtl::new(State::Starting, Mode::Standard);
    c.index_cycles(&mut l);
    assert_eq!(c.std_ptrs.as_slice(), &[(11, 2), (12, 3)]);
    assert!(c.internal.have_standard);
    let ptrs: Vec<Option<u8>> = l.iter().map(|x| x.ptr).collect();
    assert_eq!(ptrs, vec![Some(0), Some(1), Some(2), Some(3)]);
    assert_eq!(c.get_std_cycle_by_id(&l, 12).name, "s2");
    let p = c.del_cycle_from_id(&mut l, 11);
    assert_eq!(p, 2);
    assert_eq!(l.len(), 3);
    c.forget_std_ptr(p);
    assert_eq!(c.std_ptrs.as_slice(), &[(12, 3)]);
    c.add_std_ptr(13, 4);
    assert_eq!(c.std_ptrs.as_slice(), &[(12, 3), (13, 4)]);
}

#[test]
fn first_cycle_is_the_running_one_or_the_earliest_of_the_mode() {
    let std = CycleType::Standard.code();
    let wzr = CycleType::Wizard.code();
    let cycles = [
        (WateringStatus::Waiting, wzr, 50u64),
        (WateringStatus::Waiting, std, 300u64),
        (WateringStatus::Waiting, std, 200u64),
    ];
    assert_eq!(get_first_cycle_time(&cycles, Mode::Standard), (200, 2));
    assert_eq!(get_first_cycle_time(&cycles, Mode::Wizard), (50, 0));
    assert_eq!(get_first_cycle_time(&cycles, Mode::Manual), (u64::MAX, -1));
    let running = [
        (WateringStatus::Waiting, std, 10u64),
        (WateringStatus::Running, std, 400u64),
        (WateringStatus::Waiting, std, 5u64),
    ];
    assert_eq!(get_first_cycle_time(&running, Mode::Standard), (400, 1));
}

#[test]
fn cycle_type_codes() {
    assert_eq!(CycleType::Wizard.code(), 0);
    assert_eq!(CycleType::Standard.code(), 3);
    assert_eq!(CycleType::from_unchecked(2), CycleType::Direct);
    assert!(CycleType::Compensation.precedes(&CycleType::Direct));
    assert!(!CycleType::Standard.precedes(&CycleType::Wizard));
    assert_eq!(CycleType::default(), CycleType::Standard);
}

#[test]
fn passed_cycle_starts_move_to_their_next_event() {
    let mut l = list(vec![
        cycle(1, "a", CycleType::Wizard, 0),
        cycle(2, "b", CycleType::Direct, 0),
        cycle(3, "c", CycleType::Standard, 0),
        cycle(4, "d", CycleType::Standard, 0),
    ]);
    l[3].schedule.start = CtrlTime(5000);
    let nexts = [NextEvent::At(CtrlTime(2000)), NextEvent::Invalid, NextEvent::NoEvent, NextEvent::At(CtrlTime(9000))];
    let invalid = refresh_cycle_starts(&mut l, CtrlTime(1500), &nexts);
    assert_eq!(invalid, vec![1]);
    let starts: Vec<u64> = l.iter().map(|c| c.schedule.start.0).collect();
    assert_eq!(starts, vec![2000, 1000, 1000, 5000]);
}
