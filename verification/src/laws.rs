//! Properties of the watering state machine as a whole.
use vstd::prelude::*;
use crate::rega::{Command, CtrlTime, CyclePtr, Mode, State, WateringStatus};
use crate::engine::{Action, FollowUp, WtrCtl, is_resting, mode_wait_state};
use crate::exec_cmds::{dispatch_ptrs, dispatch_step, final_state, first_due, follow_up_commands, tick_active_ptrs, tick_commands};
use crate::ptr_list::ptr_list_items;
use crate::cycle::{Cycle, resumed_cycle};
use crate::rega::{RunningPtr, SectorId, SectorPtr};
use crate::sector_queue::{resumed, sector_is_active, suspended_queue};
use crate::valve::{run_status_of, valve_on_state};
use crate::valve_state::RelayState;

verus! {

/// From every state (the start-up, which reloads the machine, aside), a
/// shutdown command leads to the shutdown state, unless errors are pending.
pub proof fn law_shutdown_from_every_resting_state(c: &WtrCtl, time: CtrlTime, sector_enabled: bool, resumed: bool)
    requires
        c.state != State::Starting,
    ensures
        dispatch_step(c, Command::ShutDown, time, sector_enabled).next == State::Shutdown,
        final_state(dispatch_step(c, Command::ShutDown, time, sector_enabled), false, resumed) == State::Shutdown,
{
}

/// A shutdown command always ends in the shutdown state: from any state it
/// leads there, or to the error state when errors are pending; and from the
/// error state, which hands the errors out, it leads there whatever is
/// pending.  The command loop runs the same command again while the state
/// changes, so it stops in the shutdown state.
pub proof fn law_shutdown_reaches_shutdown(c: &WtrCtl, d: &WtrCtl, time: CtrlTime, sector_enabled: bool,
    has_errors: bool, d_has_errors: bool, resumed: bool)
    requires
        c.state != State::Starting,
        d.state == State::Error,
    ensures
        final_state(dispatch_step(c, Command::ShutDown, time, sector_enabled), has_errors, resumed) == State::Shutdown
            || final_state(dispatch_step(c, Command::ShutDown, time, sector_enabled), has_errors, resumed)
            == State::Error,
        final_state(dispatch_step(d, Command::ShutDown, time, sector_enabled), d_has_errors, resumed)
            == State::Shutdown,
{
}

/// The shutdown state is terminal: whatever the command and whatever is
/// pending, the machine stays there.
pub proof fn law_shutdown_is_terminal(c: &WtrCtl, cmd: Command, time: CtrlTime, sector_enabled: bool,
    has_errors: bool, resumed: bool)
    requires
        c.state == State::Shutdown,
    ensures
        final_state(dispatch_step(c, cmd, time, sector_enabled), has_errors, resumed) == State::Shutdown,
{
}

/// Whether `run` is a run of the machine: each machine's state is where a
/// step of the one before it ends, on the command, time, sector state,
/// pending errors and resume outcome of that step.
pub open spec fn is_run(run: Seq<WtrCtl>, cmds: Seq<Command>, times: Seq<CtrlTime>, enabled: Seq<bool>,
    errs: Seq<bool>, resumed: Seq<bool>) -> bool {
    &&& run.len() == cmds.len() + 1
    &&& times.len() == cmds.len()
    &&& enabled.len() == cmds.len()
    &&& errs.len() == cmds.len()
    &&& resumed.len() == cmds.len()
    &&& forall|i: int| 0 <= i < cmds.len() ==> #[trigger] run[i + 1].state == final_state(
        dispatch_step(&run[i], cmds[i], times[i], enabled[i]), errs[i], resumed[i])
}

/// Once a run of the machine reaches the shutdown state, it stays there for
/// the rest of the run, whatever commands come.
pub proof fn law_run_stays_shut_down(run: Seq<WtrCtl>, cmds: Seq<Command>, times: Seq<CtrlTime>, enabled: Seq<bool>,
    errs: Seq<bool>, resumed: Seq<bool>, k: int, j: int)
    requires
        is_run(run, cmds, times, enabled, errs, resumed),
        0 <= k <= j < run.len(),
        run[k].state == State::Shutdown,
    ensures
        run[j].state == State::Shutdown,
    decreases j - k,
{
    if j > k {
        law_run_stays_shut_down(run, cmds, times, enabled, errs, resumed, k, j - 1);
        let i = j - 1;
        law_shutdown_is_terminal(&run[i], cmds[i], times[i], enabled[i], errs[i], resumed[i]);
        assert(run[i + 1].state == final_state(dispatch_step(&run[i], cmds[i], times[i], enabled[i]), errs[i],
            resumed[i]));
    }
}

/// An error command takes every state but the start-up and shutdown to the
/// error state.
pub proof fn law_error_command_leads_to_error(c: &WtrCtl, time: CtrlTime, sector_enabled: bool, has_errors: bool,
    resumed: bool)
    requires
        c.state != State::Starting,
        c.state != State::Shutdown,
    ensures
        final_state(dispatch_step(c, Command::Error, time, sector_enabled), has_errors, resumed) == State::Error,
{
}

/// A change of mode takes every resting state but shutdown to the state that
/// establishes the mode, unless errors are pending.
pub proof fn law_change_mode_leads_to_establish_mode(c: &WtrCtl, m: Mode, time: CtrlTime, sector_enabled: bool,
    resumed: bool)
    requires
        is_resting(c.state),
        c.state != State::Shutdown,
    ensures
        final_state(dispatch_step(c, Command::ChangeMode(m), time, sector_enabled), false, resumed)
            == State::EstablishMode,
{
}

/// Establishing a mode waits in that mode (standard mode only when standard
/// cycles exist) after updating the cycles for it.
pub proof fn law_establish_mode_waits_in_mode(c: &WtrCtl, m: Mode, time: CtrlTime, sector_enabled: bool,
    resumed: bool)
    requires
        c.state == State::EstablishMode,
    ensures
        dispatch_step(c, Command::ChangeMode(m), time, sector_enabled).action
            == (Action::EstablishCycles { mode: m, announce: true }),
        final_state(dispatch_step(c, Command::ChangeMode(m), time, sector_enabled), false, resumed)
            == mode_wait_state(m, ptr_list_items(c.std_ptrs).len() > 0),
{
}

/// The empty command changes no resting state, unless errors are pending.
pub proof fn law_null_command_keeps_state(c: &WtrCtl, time: CtrlTime, sector_enabled: bool, resumed: bool)
    requires
        is_resting(c.state),
    ensures
        final_state(dispatch_step(c, Command::Null, time, sector_enabled), false, resumed) == c.state,
        c.state != State::Error ==> dispatch_step(c, Command::Null, time, sector_enabled).action == Action::Nothing,
{
}

/// Pending errors take every waiting and watering state to the error state,
/// whatever the command.
pub proof fn law_pending_errors_lead_to_error(c: &WtrCtl, cmd: Command, time: CtrlTime, sector_enabled: bool,
    resumed: bool)
    requires
        is_resting(c.state),
        c.state != State::Shutdown,
        c.state != State::Error,
        c.state != State::NoScheduleDef,
    ensures
        final_state(dispatch_step(c, cmd, time, sector_enabled), true, resumed) == State::Error,
{
}

/// A weather alert suspends a wizard cycle that is watering a sector, and a
/// resume that restarts a sector goes back to watering it.
pub proof fn law_suspend_and_resume(c: &WtrCtl, d: &WtrCtl, alert: u8, time: CtrlTime, sector_enabled: bool)
    requires
        c.state == State::WzrWtrSector,
        d.state == State::SuspendedWizard,
    ensures
        dispatch_step(c, Command::Suspend(alert), time, sector_enabled).action == Action::Suspend,
        final_state(dispatch_step(c, Command::Suspend(alert), time, sector_enabled), false, false)
            == State::SuspendedWizard,
        dispatch_step(d, Command::Resume, time, sector_enabled).action == Action::Resume,
        final_state(dispatch_step(d, Command::Resume, time, sector_enabled), false, true) == State::WzrWtrSector,
        final_state(dispatch_step(d, Command::Resume, time, sector_enabled), false, false) == State::WzrWtrCycle,
{
}

/// An interrupting command that reaches a standard or wizard watering state
/// with an active cycle stops that cycle, closing it as terminated, or as
/// failed for an error command.
pub proof fn law_interrupt_stops_active_cycle(c: &WtrCtl, cmd: Command, time: CtrlTime, sector_enabled: bool)
    requires
        c.state == State::StdWtrCycle || c.state == State::StdWtrSector || c.state == State::WzrWtrCycle
            || c.state == State::WzrWtrSector || c.state == State::SuspendedWizard || c.state == State::StdWait
            || c.state == State::WzrWait || c.state == State::ManWtrSectorDirect,
        c.active_ptrs.cycle is Some,
        cmd is ChangeMode || cmd is ShutDown || cmd is Error,
    ensures
        dispatch_step(c, cmd, time, sector_enabled).action == (Action::StopCycle {
            status: if cmd is Error { WateringStatus::Error } else { WateringStatus::Terminated },
        }),
{
}

/// Once the wizard cycle is due, the time tick asks to start it, and the
/// waiting machine starts it and goes watering, unless errors are pending.
pub proof fn law_due_wizard_cycle_starts(c: &WtrCtl, p: CyclePtr, time: CtrlTime, sector_enabled: bool,
    resumed: bool)
    requires
        c.state == State::WzrWait,
        c.active_ptrs.cycle is None,
    ensures
        tick_commands(c, time, seq![], Some((p, true)), false, false) == seq![Command::StartCycle(p)],
        dispatch_step(c, Command::StartCycle(p), time, sector_enabled).action
            == (Action::StartCycle { manual: false, at: None }),
        final_state(dispatch_step(c, Command::StartCycle(p), time, sector_enabled), false, resumed)
            == State::WzrWtrCycle,
{
}

/// In standard waiting, the time tick asks to start the first due standard
/// cycle, and the waiting machine starts it and goes watering, unless errors
/// are pending.
pub proof fn law_due_standard_cycle_starts(c: &WtrCtl, due: Seq<bool>, time: CtrlTime, sector_enabled: bool,
    resumed: bool)
    requires
        c.state == State::StdWait,
        c.active_ptrs.cycle is None,
        first_due(due, ptr_list_items(c.std_ptrs)) is Some,
    ensures
        tick_commands(c, time, due, None, false, false)
            == seq![Command::StartCycle(first_due(due, ptr_list_items(c.std_ptrs)).unwrap())],
        dispatch_step(c, Command::StartCycle(first_due(due, ptr_list_items(c.std_ptrs)).unwrap()), time,
            sector_enabled).action == (Action::StartCycle { manual: false, at: None }),
        final_state(dispatch_step(c, Command::StartCycle(first_due(due, ptr_list_items(c.std_ptrs)).unwrap()), time,
            sector_enabled), false, resumed) == State::StdWtrCycle,
{
}

/// In a standard or wizard watering state, once the running sector's end
/// time came, the time tick ends that sector and the machine goes back to
/// its cycle: it stops the sector when more sectors are queued; otherwise the
/// end of the cycle, queued by the handler, stops it.
pub proof fn law_ended_sector_returns_to_cycle(c: &WtrCtl, time: CtrlTime, sector_enabled: bool, resumed: bool)
    requires
        c.state == State::StdWtrSector || c.state == State::WzrWtrSector,
    ensures
        tick_commands(c, time, seq![], None, false, true) == seq![Command::EndSector(c.active_ptrs)],
        final_state(dispatch_step(c, Command::EndSector(c.active_ptrs), time, sector_enabled), false, resumed)
            == (if c.state == State::StdWtrSector { State::StdWtrCycle } else { State::WzrWtrCycle }),
        dispatch_step(c, Command::EndSector(c.active_ptrs), time, sector_enabled).action
            == (if c.wtr_secs@.len() == 0 { Action::Nothing } else { Action::StopSector }),
{
}

/// Suspending the watering and resuming it, with nothing in between and
/// with the valve obeying: the same sector restarts, from the same pointers
/// and the same queue; its valve is open again and its run is running; the
/// cycle's run, the same run as before, is running again with no end yet.
pub proof fn law_suspend_then_resume_restores_watering(p: RunningPtr, q: Seq<(SectorId, SectorPtr)>, c: Cycle,
    time: CtrlTime)
    requires
        sector_is_active(p),
    ensures
        resumed(p, suspended_queue(p, q)) == (Some((p.sec_id.unwrap(), p.run_sec_ptr.unwrap())), p, q),
        valve_on_state(true) == RelayState::Open,
        run_status_of(false, WateringStatus::Running) == WateringStatus::Running,
        resumed_cycle(c, time).run.status == WateringStatus::Running,
        resumed_cycle(c, time).run.end == CtrlTime(0),
        resumed_cycle(c, time).run.run_id == c.run.run_id,
        resumed_cycle(c, time).run.cycle_id == c.run.cycle_id,
        resumed_cycle(c, time).schedule == c.schedule,
{
    crate::sector_queue::law_suspend_then_resume_restores(p, q);
}

/// In manual watering of a sector, ending or stopping that sector stops it
/// and goes back to the manual watering cycle while sectors are still
/// queued, so that the next one starts; only with an empty queue does the
/// machine go back to manual waiting.
pub proof fn law_manual_sector_end_returns_to_cycle(c: &WtrCtl, cmd: Command, time: CtrlTime, sector_enabled: bool,
    resumed: bool)
    requires
        c.state == State::ManWtrSector,
        cmd is EndSector || cmd is StopSector,
    ensures
        dispatch_step(c, cmd, time, sector_enabled).action == Action::StopSector,
        c.wtr_secs@.len() > 0 ==> final_state(dispatch_step(c, cmd, time, sector_enabled), false, resumed)
            == State::ManWtrCycle,
        c.wtr_secs@.len() == 0 ==> final_state(dispatch_step(c, cmd, time, sector_enabled), false, resumed)
            == State::ManWait,
{
}

/// While a cycle waters (standard, wizard or manual) and its first queued
/// sector's start time has come, the clock queues exactly the start of a
/// sector, and that first queued sector becomes the running one, in the same
/// cycle.  Before its time nothing is queued and the pointers stay.
pub proof fn law_due_front_sector_starts(c: &WtrCtl, time: CtrlTime, std_due: Seq<bool>,
    wizard: Option<(CyclePtr, bool)>, front_due: bool, active_end_due: bool)
    requires
        c.state == State::StdWtrCycle || c.state == State::WzrWtrCycle || c.state == State::ManWtrCycle,
        c.wtr_secs@.len() > 0,
    ensures
        front_due ==> tick_commands(c, time, std_due, wizard, true, active_end_due) == seq![Command::StartSector],
        front_due ==> tick_active_ptrs(c, true) == (RunningPtr {
            cycle: c.active_ptrs.cycle,
            sec_id: Some(c.wtr_secs@[0].0),
            run_sec_ptr: Some(c.wtr_secs@[0].1),
        }),
        !front_due ==> tick_commands(c, time, std_due, wizard, false, active_end_due) == Seq::<Command>::empty(),
        !front_due ==> tick_active_ptrs(c, false) == c.active_ptrs,
{
}

/// The state table of manual operation: what each state does with each
/// command that is not an interrupt (a mode change, a shutdown, an error).
/// In manual waiting, forcing a cycle starts it now as a manual cycle,
/// forcing an enabled sector starts the direct cycle with that sector now,
/// and a state change re-establishes the mode.  A manual watering cycle
/// starts its sectors, and a stop or the end of the cycle returns to manual
/// waiting.  A sector of a manual cycle is stopped with its cycle on a stop
/// of that cycle; a sector forced directly ends its cycle when stopped.  Any
/// other command is ignored.
pub proof fn law_manual_state_table(c: &WtrCtl, cmd: Command, time: CtrlTime, sector_enabled: bool)
    requires
        !(cmd is ChangeMode || cmd is ShutDown || cmd is Error),
    ensures
        c.state == State::ManWait && cmd is ForceCycle ==> dispatch_step(c, cmd, time, sector_enabled).next
            == State::ManWtrCycle && dispatch_step(c, cmd, time, sector_enabled).action == (Action::StartCycle {
            manual: true,
            at: Some(time),
        }),
        c.state == State::ManWait && cmd is ForceSector && sector_enabled ==> dispatch_step(c, cmd, time,
            sector_enabled).next == State::ManWtrSectorDirect && dispatch_step(c, cmd, time, sector_enabled).action
            == (Action::StartCycleAndSector { forced_start: time }),
        c.state == State::ManWait && cmd is ChangeState ==> dispatch_step(c, cmd, time, sector_enabled).next
            == State::EstablishMode,
        c.state == State::ManWait && !(cmd is ForceCycle || (cmd is ForceSector && sector_enabled)
            || cmd is ChangeState) ==> dispatch_step(c, cmd, time, sector_enabled).next == State::ManWait
            && dispatch_step(c, cmd, time, sector_enabled).action == Action::Nothing,
        c.state == State::ManWtrCycle && cmd is StartSector ==> dispatch_step(c, cmd, time, sector_enabled).next
            == State::ManWtrSector && dispatch_step(c, cmd, time, sector_enabled).action == Action::StartSector,
        c.state == State::ManWtrCycle ==> (cmd matches Command::StopCycle(id) ==> (dispatch_step(c, cmd, time,
            sector_enabled).next == State::ManWait && dispatch_step(c, cmd, time, sector_enabled).action
            == (Action::StopManCycle { cycle_id: Some(id), status: WateringStatus::Terminated }))),
        c.state == State::ManWtrCycle && cmd is EndCycle ==> dispatch_step(c, cmd, time, sector_enabled).next
            == State::ManWait && dispatch_step(c, cmd, time, sector_enabled).action == (Action::StopCycle {
            status: WateringStatus::Terminated,
        }),
        c.state == State::ManWtrCycle && !(cmd is StartSector || cmd is StopCycle || cmd is EndCycle)
            ==> dispatch_step(c, cmd, time, sector_enabled).next == State::ManWtrCycle && dispatch_step(c, cmd,
            time, sector_enabled).action == Action::Nothing,
        c.state == State::ManWtrSector ==> (cmd matches Command::StopCycle(id) ==> (dispatch_step(c, cmd, time,
            sector_enabled).next == State::ManWait && dispatch_step(c, cmd, time, sector_enabled).action
            == (Action::StopManCycle { cycle_id: Some(id), status: WateringStatus::Terminated }))),
        c.state == State::ManWtrSector && !(cmd is EndSector || cmd is StopSector || cmd is StopCycle)
            ==> dispatch_step(c, cmd, time, sector_enabled).next == State::ManWtrSector && dispatch_step(c, cmd,
            time, sector_enabled).action == Action::Nothing,
        c.state == State::ManWtrSectorDirect && cmd is StopSector ==> dispatch_step(c, cmd, time, sector_enabled).next
            == State::ManWait && dispatch_step(c, cmd, time, sector_enabled).action == (Action::StopCycle {
            status: WateringStatus::Terminated,
        }) && dispatch_step(c, cmd, time, sector_enabled).follow == FollowUp::ResetAll,
        c.state == State::ManWtrSectorDirect && !(cmd is StopSector) ==> dispatch_step(c, cmd, time,
            sector_enabled).next == State::ManWtrSectorDirect && dispatch_step(c, cmd, time, sector_enabled).action
            == Action::Nothing,
{
}

/// The state table of standard operation, for commands that are not
/// interrupts.  Waiting, a due cycle starts (a conflict when one is already
/// active) and the start queues its sectors; a state change re-establishes
/// the mode.  A watering cycle starts its sectors; its stop stops the active
/// cycle and its end closes it, both back to waiting.  A watering sector
/// stops with its cycle on a stop.  Any other command is ignored.
pub proof fn law_standard_state_table(c: &WtrCtl, cmd: Command, time: CtrlTime, sector_enabled: bool)
    requires
        !(cmd is ChangeMode || cmd is ShutDown || cmd is Error),
    ensures
        c.state == State::StdWait ==> (cmd matches Command::StartCycle(p) ==> (dispatch_step(c, cmd, time,
            sector_enabled).next == State::StdWtrCycle && dispatch_step(c, cmd, time, sector_enabled).follow
            == FollowUp::QueueAfterStart(p) && dispatch_step(c, cmd, time, sector_enabled).action == (if c.active_ptrs.cycle
            is None {
            Action::StartCycle { manual: false, at: None }
        } else {
            Action::CycleConflict
        }))),
        c.state == State::StdWait && cmd is ChangeState ==> dispatch_step(c, cmd, time, sector_enabled).next
            == State::EstablishMode,
        c.state == State::StdWait && !(cmd is StartCycle || cmd is ChangeState) ==> dispatch_step(c, cmd, time,
            sector_enabled).next == State::StdWait && dispatch_step(c, cmd, time, sector_enabled).action
            == Action::Nothing,
        c.state == State::StdWtrCycle && cmd is StartSector ==> dispatch_step(c, cmd, time, sector_enabled).next
            == State::StdWtrSector && dispatch_step(c, cmd, time, sector_enabled).action == Action::StartSector,
        c.state == State::StdWtrCycle && cmd is StopCycle ==> dispatch_step(c, cmd, time, sector_enabled).next
            == State::StdWait && dispatch_step(c, cmd, time, sector_enabled).action == (if c.active_ptrs.cycle is Some {
            Action::StopCycle { status: WateringStatus::Terminated }
        } else {
            Action::Nothing
        }),
        c.state == State::StdWtrCycle && cmd is EndCycle ==> dispatch_step(c, cmd, time, sector_enabled).next
            == State::StdWait && dispatch_step(c, cmd, time, sector_enabled).action == (Action::StopCycle {
            status: WateringStatus::Terminated,
        }),
        c.state == State::StdWtrCycle && !(cmd is StartSector || cmd is StopCycle || cmd is EndCycle)
            ==> dispatch_step(c, cmd, time, sector_enabled).next == State::StdWtrCycle && dispatch_step(c, cmd, time,
            sector_enabled).action == Action::Nothing,
        c.state == State::StdWtrSector && cmd is StopCycle ==> dispatch_step(c, cmd, time, sector_enabled).next
            == State::StdWait && dispatch_step(c, cmd, time, sector_enabled).action == (if c.active_ptrs.cycle is Some {
            Action::StopCycle { status: WateringStatus::Terminated }
        } else {
            Action::Nothing
        }),
        c.state == State::StdWtrSector && !(cmd is EndSector || cmd is StopCycle) ==> dispatch_step(c, cmd, time,
            sector_enabled).next == State::StdWtrSector && dispatch_step(c, cmd, time, sector_enabled).action
            == Action::Nothing,
        c.state == State::NoScheduleDef && cmd is ChangeState ==> dispatch_step(c, cmd, time, sector_enabled).next
            == State::EstablishMode,
        c.state == State::NoScheduleDef && !(cmd is ChangeState) ==> dispatch_step(c, cmd, time, sector_enabled).next
            == State::NoScheduleDef && dispatch_step(c, cmd, time, sector_enabled).action == Action::Nothing,
{
}

/// The state table of wizard operation, for commands that are not
/// interrupts.  Waiting, the due wizard cycle starts (a conflict when one is
/// already active); a state change re-establishes the mode.  A watering cycle
/// starts its sectors, is suspended by a weather alert, and its end or stop
/// returns to waiting.  A watering sector is suspended by an alert and stops
/// with its cycle on a stop.  Suspended, the cycle resumes on request or is
/// closed when the suspension times out.  Any other command is ignored.
pub proof fn law_wizard_state_table(c: &WtrCtl, cmd: Command, time: CtrlTime, sector_enabled: bool)
    requires
        !(cmd is ChangeMode || cmd is ShutDown || cmd is Error),
    ensures
        c.state == State::WzrWait ==> (cmd matches Command::StartCycle(p) ==> (dispatch_step(c, cmd, time,
            sector_enabled).next == State::WzrWtrCycle && dispatch_step(c, cmd, time, sector_enabled).follow
            == FollowUp::QueueAfterWizardStart(p) && dispatch_step(c, cmd, time, sector_enabled).action == (
        if c.active_ptrs.cycle is None {
            Action::StartCycle { manual: false, at: None }
        } else {
            Action::CycleConflict
        }))),
        c.state == State::WzrWait && cmd is ChangeState ==> dispatch_step(c, cmd, time, sector_enabled).next
            == State::EstablishMode,
        c.state == State::WzrWait && !(cmd is StartCycle || cmd is ChangeState) ==> dispatch_step(c, cmd, time,
            sector_enabled).next == State::WzrWait && dispatch_step(c, cmd, time, sector_enabled).action
            == Action::Nothing,
        c.state == State::WzrWtrCycle && cmd is StartSector ==> dispatch_step(c, cmd, time, sector_enabled).next
            == State::WzrWtrSector && dispatch_step(c, cmd, time, sector_enabled).action == Action::StartSector,
        (c.state == State::WzrWtrCycle || c.state == State::WzrWtrSector) && cmd is Suspend ==> dispatch_step(c, cmd,
            time, sector_enabled).next == State::SuspendedWizard && dispatch_step(c, cmd, time, sector_enabled).action
            == Action::Suspend,
        c.state == State::WzrWtrCycle && cmd is EndCycle ==> dispatch_step(c, cmd, time, sector_enabled).next
            == State::WzrWait && dispatch_step(c, cmd, time, sector_enabled).action == (Action::StopCycle {
            status: WateringStatus::Terminated,
        }),
        (c.state == State::WzrWtrCycle || c.state == State::WzrWtrSector) && cmd is StopCycle ==> dispatch_step(c,
            cmd, time, sector_enabled).next == State::WzrWait && dispatch_step(c, cmd, time, sector_enabled).action == (
        if c.active_ptrs.cycle is Some {
            Action::StopCycle { status: WateringStatus::Terminated }
        } else {
            Action::Nothing
        }),
        c.state == State::WzrWtrCycle && !(cmd is StartSector || cmd is EndCycle || cmd is Suspend || cmd is StopCycle)
            ==> dispatch_step(c, cmd, time, sector_enabled).next == State::WzrWtrCycle && dispatch_step(c, cmd, time,
            sector_enabled).action == Action::Nothing,
        c.state == State::WzrWtrSector && !(cmd is Suspend || cmd is StopCycle || cmd is EndSector || cmd is StopSector)
            ==> dispatch_step(c, cmd, time, sector_enabled).next == State::WzrWtrSector && dispatch_step(c, cmd, time,
            sector_enabled).action == Action::Nothing,
        c.state == State::SuspendedWizard && cmd is Resume ==> dispatch_step(c, cmd, time, sector_enabled).action
            == Action::Resume && dispatch_step(c, cmd, time, sector_enabled).follow == FollowUp::AfterResume,
        c.state == State::SuspendedWizard && cmd is ResumeTimeOut ==> dispatch_step(c, cmd, time, sector_enabled).next
            == State::WzrWait && dispatch_step(c, cmd, time, sector_enabled).action == (Action::StopCycle {
            status: WateringStatus::SuspendedTimeout,
        }),
        c.state == State::SuspendedWizard && !(cmd is Resume || cmd is ResumeTimeOut) ==> dispatch_step(c, cmd, time,
            sector_enabled).next == State::SuspendedWizard && dispatch_step(c, cmd, time, sector_enabled).action
            == Action::Nothing,
{
}

/// What the clock does in the other states: in a sector-watering state
/// (standard, wizard or manual) it ends the running sector once its end time
/// came, and does nothing before; in a suspension it times the suspension
/// out once the timeout passed, and does nothing before; in manual waiting,
/// while a sector forced directly waters, without a schedule, and in the
/// error and shutdown states it does nothing.  The running pointers stay.
pub proof fn law_tick_table(c: &WtrCtl, time: CtrlTime, std_due: Seq<bool>, wizard: Option<(CyclePtr, bool)>,
    front_due: bool, active_end_due: bool)
    ensures
        (c.state == State::StdWtrSector || c.state == State::WzrWtrSector || c.state == State::ManWtrSector)
            ==> tick_commands(c, time, std_due, wizard, front_due, active_end_due) == (if active_end_due {
            seq![Command::EndSector(c.active_ptrs)]
        } else {
            Seq::<Command>::empty()
        }),
        c.state == State::SuspendedWizard ==> (c.suspend_timeout matches Some(t) ==> tick_commands(c, time, std_due,
            wizard, front_due, active_end_due) == (if time.0 >= t.0 {
            seq![Command::ResumeTimeOut]
        } else {
            Seq::<Command>::empty()
        })),
        (c.state == State::ManWait || c.state == State::ManWtrSectorDirect || c.state == State::NoScheduleDef
            || c.state == State::Error || c.state == State::Shutdown) ==> tick_commands(c, time, std_due, wizard,
            front_due, active_end_due) == Seq::<Command>::empty(),
        !(c.state == State::StdWtrCycle || c.state == State::WzrWtrCycle || c.state == State::ManWtrCycle)
            ==> tick_active_ptrs(c, front_due) == c.active_ptrs,
{
}

/// How a step completes.  Pending errors turn a step that checks them into
/// the error state.  A cycle just started (standard or wizard) goes on to
/// its first sector when one is queued, and is ended at once otherwise.  A
/// resume that restarted a sector waters that sector again; one that did not
/// goes back to the wizard cycle and ends it.
pub proof fn law_step_completion(c: &WtrCtl, cmd: Command, time: CtrlTime, sector_enabled: bool, has_errors: bool,
    resumed: bool)
    ensures
        dispatch_step(c, cmd, time, sector_enabled).check_errors && has_errors ==> final_state(dispatch_step(c, cmd,
            time, sector_enabled), has_errors, resumed) == State::Error,
        !has_errors && dispatch_step(c, cmd, time, sector_enabled).follow != FollowUp::AfterResume ==> final_state(
            dispatch_step(c, cmd, time, sector_enabled), has_errors, resumed) == dispatch_step(c, cmd, time,
            sector_enabled).next,
        c.state == State::SuspendedWizard && cmd == Command::Resume && !has_errors ==> final_state(dispatch_step(c,
            cmd, time, sector_enabled), has_errors, resumed) == (if resumed {
            State::WzrWtrSector
        } else {
            State::WzrWtrCycle
        }),
        c.state == State::SuspendedWizard && cmd == Command::Resume ==> follow_up_commands(c, dispatch_step(c, cmd,
            time, sector_enabled), resumed) == (if resumed {
            Seq::<Command>::empty()
        } else {
            seq![Command::EndCycle(c.active_ptrs.cycle.unwrap())]
        }),
        (c.state == State::StdWait || c.state == State::WzrWait) ==> (cmd matches Command::StartCycle(p) ==> 
            follow_up_commands(c, dispatch_step(c, cmd, time, sector_enabled), resumed) == (if c.active_ptrs.sec_id
            is Some {
            seq![Command::StartSector]
        } else {
            seq![Command::EndCycle(p)]
        })),
{
}

/// Where the running pointers point after a command: forcing a cycle by hand
/// points at the direct cycle, and forcing an enabled sector points at the
/// direct cycle and that sector; a cycle due while waiting becomes the
/// active cycle, unless another one is active, when none is; other commands
/// and interrupts leave the pointers alone.
pub proof fn law_dispatch_pointers(c: &WtrCtl, cmd: Command, sector_enabled: bool)
    ensures
        c.state == State::ManWait && cmd is ForceCycle ==> dispatch_ptrs(c, cmd, sector_enabled) == (RunningPtr {
            cycle: c.internal.direct,
            ..c.active_ptrs
        }),
        c.state == State::ManWait ==> (cmd matches Command::ForceSector(id) ==> dispatch_ptrs(c, cmd, sector_enabled)
            == (if sector_enabled {
            RunningPtr { cycle: c.internal.direct, sec_id: Some(id), ..c.active_ptrs }
        } else {
            c.active_ptrs
        })),
        (c.state == State::StdWait || c.state == State::WzrWait) ==> (cmd matches Command::StartCycle(p) ==> 
            dispatch_ptrs(c, cmd, sector_enabled).cycle == (if c.active_ptrs.cycle is None {
            Some(p)
        } else {
            None
        })),
        (cmd is ChangeMode || cmd is ShutDown || cmd is Error) ==> dispatch_ptrs(c, cmd, sector_enabled)
            == c.active_ptrs,
        !(c.state == State::ManWait || c.state == State::StdWait || c.state == State::WzrWait) ==> dispatch_ptrs(c,
            cmd, sector_enabled) == c.active_ptrs,
{
}

} // verus!
