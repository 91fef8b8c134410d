use lagarto_ctrl::engine::{Action, FollowUp, WtrCtl};
use lagarto_ctrl::exec_cmds::{eats_command, should_notify};
use lagarto_ctrl::rega::{Command, CtrlTime, Mode, RunningPtr, State, WateringStatus};

/// Runs one command through the machine and settles in the state it leads to.
fn run(c: &mut WtrCtl, cmd: Command, time: u64, sector_enabled: bool, resumed: bool) -> (Action, Vec<String>) {
    let step = c.dispatch(&cmd, CtrlTime(time), sector_enabled);
    let (next, errors) = c.complete(step, resumed);
    c.state = next;
    (step.action, errors)
}

#[test]
fn start_in_standard_mode_without_cycles_has_no_schedule() {
    let mut c = WtrCtl::new(State::EstablishMode, Mode::Standard);
    let (action, errors) = run(&mut c, Command::Start, 0, true, false);
    assert_eq!(action, Action::EstablishCycles { mode: Mode::Standard, announce: true });
    assert!(errors.is_empty());
    assert_eq!(c.state, State::NoScheduleDef);
    assert!(c.changed);
}

#[test]
fn change_mode_goes_through_establish_mode_to_the_wait_state() {
    let mut c = WtrCtl::new(State::ManWait, Mode::Manual);
    run(&mut c, Command::ChangeMode(Mode::Wizard), 0, true, false);
    assert_eq!(c.state, State::EstablishMode);
    let (action, _) = run(&mut c, Command::ChangeMode(Mode::Wizard), 0, true, false);
    assert_eq!(action, Action::EstablishCycles { mode: Mode::Wizard, announce: true });
    assert_eq!(c.state, State::WzrWait);
    assert_eq!(c.mode, Mode::Wizard);
}

#[test]
fn shutdown_from_a_waiting_state() {
    let mut c = WtrCtl::new(State::StdWait, Mode::Standard);
    run(&mut c, Command::ShutDown, 0, true, false);
    assert_eq!(c.state, State::Shutdown);
    // nothing leaves the shutdown state
    run(&mut c, Command::Start, 0, true, false);
    assert_eq!(c.state, State::Shutdown);
}

#[test]
fn interrupt_stops_the_active_cycle() {
    let mut c = WtrCtl::new(State::WzrWtrCycle, Mode::Wizard);
    c.active_ptrs.cycle = Some(0);
    let (action, _) = run(&mut c, Command::ShutDown, 0, true, false);
    assert_eq!(action, Action::StopCycle { status: WateringStatus::Terminated });
    assert_eq!(c.state, State::Shutdown);
}

#[test]
fn pending_errors_lead_to_the_error_state_which_hands_them_out_newest_first() {
    let mut c = WtrCtl::new(State::ManWait, Mode::Manual);
    c.push_error("first".to_string());
    c.push_error("second".to_string());
    run(&mut c, Command::Null, 0, true, false);
    assert_eq!(c.state, State::Error);
    c.active_ptrs = RunningPtr { cycle: Some(1), sec_id: Some(2), run_sec_ptr: Some(0) };
    let (action, errors) = run(&mut c, Command::Null, 0, true, false);
    assert_eq!(action, Action::StopSectorOnError { sec_id: 2, run_sec_ptr: 0 });
    assert_eq!(errors, vec!["second".to_string(), "first".to_string()]);
    assert_eq!(c.state, State::Error);
    assert_eq!(c.active_ptrs, RunningPtr::new());
    assert!(c.errors.is_empty());
}

#[test]
fn error_state_leaves_on_change_mode() {
    let mut c = WtrCtl::new(State::Error, Mode::Manual);
    run(&mut c, Command::ChangeMode(Mode::Manual), 0, true, false);
    assert_eq!(c.state, State::EstablishMode);
}

#[test]
fn forcing_a_cycle_in_manual_mode_starts_the_direct_cycle() {
    let mut c = WtrCtl::new(State::ManWait, Mode::Manual);
    c.internal.direct = Some(1);
    let step = c.dispatch(&Command::ForceCycle(7), CtrlTime(500), true);
    assert_eq!(step.action, Action::StartCycle { manual: true, at: Some(CtrlTime(500)) });
    assert_eq!(step.follow, FollowUp::QueueAfterStart(1));
    assert_eq!(c.active_ptrs.cycle, Some(1));
    // the cycle start found a sector to water
    c.active_ptrs.sec_id = Some(3);
    let (next, _) = c.complete(step, false);
    assert_eq!(next, State::ManWtrCycle);
    assert_eq!(c.cmd_queue.back(), Some(&Command::StartSector));
}

#[test]
fn forcing_a_disabled_sector_does_nothing() {
    let mut c = WtrCtl::new(State::ManWait, Mode::Manual);
    c.internal.direct = Some(1);
    let (action, _) = run(&mut c, Command::ForceSector(2), 10, false, false);
    assert_eq!(action, Action::Nothing);
    assert_eq!(c.state, State::ManWait);
    assert_eq!(c.active_ptrs, RunningPtr::new());
}

#[test]
fn a_cycle_with_nothing_to_water_ends_at_once() {
    let mut c = WtrCtl::new(State::StdWait, Mode::Standard);
    let step = c.dispatch(&Command::StartCycle(2), CtrlTime(0), true);
    assert_eq!(step.action, Action::StartCycle { manual: false, at: None });
    let (next, _) = c.complete(step, false);
    assert_eq!(next, State::StdWtrCycle);
    assert_eq!(c.cmd_queue.back(), Some(&Command::EndCycle(2)));
}

#[test]
fn a_second_cycle_start_is_a_conflict() {
    let mut c = WtrCtl::new(State::StdWait, Mode::Standard);
    c.active_ptrs.cycle = Some(3);
    let step = c.dispatch(&Command::StartCycle(2), CtrlTime(0), true);
    assert_eq!(step.action, Action::CycleConflict);
    assert_eq!(c.active_ptrs.cycle, None);
}

#[test]
fn suspend_and_resume_in_wizard_mode() {
    let mut c = WtrCtl::new(State::WzrWtrSector, Mode::Wizard);
    c.active_ptrs = RunningPtr { cycle: Some(0), sec_id: Some(4), run_sec_ptr: Some(1) };
    let (action, _) = run(&mut c, Command::Suspend(2), 0, true, false);
    assert_eq!(action, Action::Suspend);
    assert_eq!(c.state, State::SuspendedWizard);
    let (action, _) = run(&mut c, Command::Resume, 0, true, true);
    assert_eq!(action, Action::Resume);
    assert_eq!(c.state, State::WzrWtrSector);
}

#[test]
fn a_resume_that_restarts_no_sector_ends_the_cycle() {
    let mut c = WtrCtl::new(State::SuspendedWizard, Mode::Wizard);
    c.active_ptrs.cycle = Some(0);
    run(&mut c, Command::Resume, 0, true, false);
    assert_eq!(c.state, State::WzrWtrCycle);
    assert_eq!(c.cmd_queue.back(), Some(&Command::EndCycle(0)));
}

#[test]
fn suspension_timeout_ends_the_cycle() {
    let mut c = WtrCtl::new(State::SuspendedWizard, Mode::Wizard);
    c.active_ptrs.cycle = Some(0);
    c.suspend_timeout = Some(CtrlTime(100));
    c.process_time_tick(CtrlTime(99), &[], None, false, false);
    assert!(c.cmd_queue.is_empty());
    c.process_time_tick(CtrlTime(100), &[], None, false, false);
    assert_eq!(c.cmd_queue.back(), Some(&Command::ResumeTimeOut));
    let (action, _) = run(&mut c, Command::ResumeTimeOut, 100, true, false);
    assert_eq!(action, Action::StopCycle { status: WateringStatus::SuspendedTimeout });
    assert_eq!(c.state, State::WzrWait);
}

#[test]
fn time_tick_starts_the_first_due_standard_cycle() {
    let mut c = WtrCtl::new(State::StdWait, Mode::Standard);
    c.add_std_ptr(10, 3);
    c.add_std_ptr(11, 4);
    c.process_time_tick(CtrlTime(0), &[false, true], None, false, false);
    assert_eq!(c.cmd_queue.back(), Some(&Command::StartCycle(4)));
}

#[test]
fn time_tick_starts_the_wizard_cycle_when_due() {
    let mut c = WtrCtl::new(State::WzrWait, Mode::Wizard);
    c.internal.wizard = Some(0);
    c.process_time_tick(CtrlTime(0), &[], Some((0, false)), false, false);
    assert!(c.cmd_queue.is_empty());
    c.process_time_tick(CtrlTime(0), &[], Some((0, true)), false, false);
    assert_eq!(c.cmd_queue.back(), Some(&Command::StartCycle(0)));
}

#[test]
fn time_tick_starts_and_ends_sectors() {
    let mut c = WtrCtl::new(State::WzrWtrCycle, Mode::Wizard);
    c.active_ptrs.cycle = Some(0);
    c.wtr_secs.push_back((5, 0));
    c.process_time_tick(CtrlTime(0), &[], None, true, false);
    assert_eq!(c.active_ptrs, RunningPtr { cycle: Some(0), sec_id: Some(5), run_sec_ptr: Some(0) });
    assert_eq!(c.cmd_queue.back(), Some(&Command::StartSector));
    c.state = State::WzrWtrSector;
    c.process_time_tick(CtrlTime(0), &[], None, false, true);
    assert_eq!(c.cmd_queue.back(), Some(&Command::EndSector(c.active_ptrs)));
}

#[test]
fn weather_alerts_suspend_and_calm_weather_resumes() {
    let mut c = WtrCtl::new(State::WzrWtrSector, Mode::Wizard);
    c.process_alert(3, false);
    assert!(c.cmd_queue.is_empty());
    c.process_alert(2, true);
    assert_eq!(c.in_alert, 2);
    assert_eq!(c.cmd_queue.back(), Some(&Command::Suspend(2)));
    c.process_weather(false);
    assert_eq!(c.cmd_queue.len(), 1);
    c.suspend_timeout = Some(CtrlTime(10));
    c.process_weather(true);
    assert_eq!(c.cmd_queue.len(), 1);
    c.process_weather(false);
    assert_eq!(c.in_alert, 0);
    assert_eq!(c.cmd_queue.back(), Some(&Command::Resume));
}

#[test]
fn commands_are_queued_in_order() {
    let mut c = WtrCtl::new(State::ManWait, Mode::Manual);
    c.process_command(Command::ChangeState);
    c.process_cycle_added();
    c.terminate();
    let q: Vec<Command> = c.cmd_queue.iter().copied().collect();
    assert_eq!(q, vec![Command::ChangeState, Command::ChangeMode(Mode::Manual), Command::ShutDown]);
    assert_eq!(c.state(), State::ManWait);
    assert_eq!(c.get_mode(), Mode::Manual);
}

#[test]
fn interrupt_classification() {
    let mut c = WtrCtl::new(State::StdWtrCycle, Mode::Standard);
    assert_eq!(c.is_interrupt_and_change_command(&Command::Error), (State::Error, true, WateringStatus::Error));
    assert_eq!(c.is_interrupt_and_change_command(&Command::Null), (State::StdWtrCycle, false, WateringStatus::Waiting));
    c.active_ptrs.cycle = Some(1);
    assert_eq!(c.is_interrupt_and_change_command(&Command::Null), (State::StdWtrCycle, false, WateringStatus::Running));
    assert_eq!(c.process_interrupt(WateringStatus::Error), Action::StopCycle { status: WateringStatus::Error });
    assert_eq!(c.validate_errors(State::StdWait), State::StdWait);
}

#[test]
fn command_consumption_and_notification() {
    assert!(eats_command(State::EstablishMode));
    assert!(eats_command(State::StdWtrCycle));
    assert!(!eats_command(State::ManWait));
    assert!(should_notify(State::ManWait, State::StdWait, false));
    assert!(should_notify(State::ManWait, State::ManWait, true));
    assert!(!should_notify(State::ManWait, State::ManWait, false));
}

#[test]
fn an_error_command_leads_to_the_error_state() {
    let mut c = WtrCtl::new(State::StdWait, Mode::Standard);
    let (action, _) = run(&mut c, Command::Error, 0, true, false);
    assert_eq!(action, Action::Nothing);
    assert_eq!(c.state, State::Error);
}

#[test]
fn the_empty_command_keeps_a_waiting_state() {
    for (state, mode) in [(State::ManWait, Mode::Manual), (State::StdWait, Mode::Standard), (State::WzrWait, Mode::Wizard)] {
        let mut c = WtrCtl::new(state, mode);
        run(&mut c, Command::Null, 0, true, false);
        assert_eq!(c.state, state);
        assert!(!c.changed);
    }
}

#[test]
fn dispatch_settles_the_mode_and_marks_the_change() {
    let mut c = WtrCtl::new(State::EstablishMode, Mode::Manual);
    let step = c.dispatch(&Command::ChangeMode(Mode::Wizard), CtrlTime(0), true);
    assert_eq!(step.next, State::WzrWait);
    assert_eq!(c.mode, Mode::Wizard);
    assert!(c.changed);
    assert_eq!(c.state, State::EstablishMode);
}

#[test]
fn the_last_sector_ending_queues_the_end_of_the_cycle() {
    let mut c = WtrCtl::new(State::StdWtrSector, Mode::Standard);
    c.active_ptrs = RunningPtr { cycle: Some(2), sec_id: Some(1), run_sec_ptr: Some(0) };
    let p = c.active_ptrs;
    let (action, _) = run(&mut c, Command::EndSector(p), 0, true, false);
    assert_eq!(action, Action::Nothing);
    assert_eq!(c.state, State::StdWtrCycle);
    assert_eq!(c.cmd_queue.back(), Some(&Command::EndCycle(2)));
    let mut d = WtrCtl::new(State::WzrWtrSector, Mode::Wizard);
    d.active_ptrs = p;
    d.wtr_secs.push_back((3, 1));
    let (action, _) = run(&mut d, Command::EndSector(p), 0, true, false);
    assert_eq!(action, Action::StopSector);
    assert_eq!(d.state, State::WzrWtrCycle);
    assert!(d.cmd_queue.is_empty());
}
