//! The decision core of the watering machine.
//!
//! `WtrCtl` holds the control state of the machine (state, mode, command
//! queue, running pointers, watering queue, suspend timeout and pending error
//! messages).  Each machine state has a handler that, for a command, decides
//! the next state and the work to perform (`Action`).  The caller performs
//! the work (valves, durations, persistence) and then calls
//! `WtrCtl::complete`, which applies the follow-up decisions that depend on
//! the outcome and the error check.
use vstd::prelude::*;
use std::collections::VecDeque;
use crate::rega::{Command, CtrlTime, CycleId, CyclePtr, InternalPtr, Mode, RunningPtr, SectorId, SectorPtr, State, WateringStatus};
use crate::ptr_list::{CycleTuple, PtrList, ptr_list_items, ptr_list_new};

verus! {

/// Work that a state handler asks the caller to perform.
#[derive(Debug, Clone, Copy, PartialEq, Eq, Structural)]
pub enum Action {
    Nothing,
    /// Start the active cycle (`manual` selects the manual set-up; `at`, when
    /// given, is the forced start time).
    StartCycle { manual: bool, at: Option<CtrlTime> },
    /// Start the direct cycle at `forced_start` and then the forced sector.
    StartCycleAndSector { forced_start: CtrlTime },
    /// Start the next sector of the watering queue.
    StartSector,
    /// Stop the active sector.
    StopSector,
    /// Stop the active cycle, closing it with `status`.
    StopCycle { status: WateringStatus },
    /// Stop a manually started cycle: the one with `cycle_id`, or the active one.
    StopManCycle { cycle_id: Option<CycleId>, status: WateringStatus },
    /// Suspend the active cycle on a weather alert.
    Suspend,
    /// Resume the suspended cycle; the caller reports whether a sector restarted.
    Resume,
    /// A cycle was asked to start while another one was active.
    CycleConflict,
    /// Close the valve of the sector that was running when the error came.
    StopSectorOnError { sec_id: SectorId, run_sec_ptr: SectorPtr },
    /// Bring the schedules of all cycles up to date for `mode` and, when
    /// `announce` is set, tell the clients that the watering machine started.
    EstablishCycles { mode: Mode, announce: bool },
}

/// Decisions that `complete` takes once the action was performed.
#[derive(Debug, Clone, Copy, PartialEq, Eq, Structural)]
pub enum FollowUp {
    Nothing,
    /// After starting a cycle: queue the first sector, or the end of the cycle
    /// when no sector is to be watered.
    QueueAfterStart(CyclePtr),
    /// The same, for the wizard cycle; the cycle must be active.
    QueueAfterWizardStart(CyclePtr),
    /// After a resume: the next state depends on whether a sector restarted.
    AfterResume,
    /// Forget the running cycle and sector.
    ResetAll,
    /// Forget the running cycle and sector and hand out the pending errors.
    DrainErrors,
}

/// The decision of a state handler.
#[derive(Debug, Clone, Copy, PartialEq, Eq, Structural)]
pub struct Step {
    /// The state the machine goes to, before the error check.
    pub next: State,
    pub action: Action,
    pub follow: FollowUp,
    /// Whether pending errors turn the next state into `State::Error`.
    pub check_errors: bool,
}

/// Control state of the watering machine.
pub struct WtrCtl {
    pub state: State,
    pub mode: Mode,
    /// Set when something changed that clients must hear about.
    pub changed: bool,
    /// Code of the weather alert in force (0: none).
    pub in_alert: u8,
    pub cmd_queue: VecDeque<Command>,
    pub active_ptrs: RunningPtr,
    pub internal: InternalPtr,
    pub std_ptrs: PtrList,
    /// Sectors still to water in the running cycle: (sector id, run pointer).
    pub wtr_secs: VecDeque<(SectorId, SectorPtr)>,
    pub suspend_timeout: Option<CtrlTime>,
    /// Messages of the errors found since they were last handed out.
    pub errors: Vec<String>,
}

/// What a command means to a state that is not `EstablishMode`: the state it
/// forces (if it interrupts), whether it interrupts, and the status to close
/// an interrupted cycle with.
pub open spec fn interrupt_of(cmd: Command, state: State, has_cycle: bool) -> (State, bool, WateringStatus) {
    match cmd {
        Command::ChangeMode(_) => (State::EstablishMode, true, WateringStatus::Terminated),
        Command::ShutDown => (State::Shutdown, true, WateringStatus::Terminated),
        Command::Error => (State::Error, true, WateringStatus::Error),
        _ => (state, false, if has_cycle { WateringStatus::Running } else { WateringStatus::Waiting }),
    }
}

/// The work of an interrupt: stop the active cycle, if there is one.
pub open spec fn interrupt_action(has_cycle: bool, status: WateringStatus) -> Action {
    if has_cycle { Action::StopCycle { status } } else { Action::Nothing }
}

/// The waiting state of each mode; standard mode without standard cycles has
/// nothing to wait for.
pub open spec fn mode_wait_state(mode: Mode, have_std: bool) -> State {
    match mode {
        Mode::Manual => State::ManWait,
        Mode::Wizard => State::WzrWait,
        Mode::Standard => if have_std { State::StdWait } else { State::NoScheduleDef },
    }
}

pub open spec fn step(next: State, action: Action, follow: FollowUp, check_errors: bool) -> Step {
    Step { next, action, follow, check_errors }
}

/// The states in which the machine waits for commands (every state but the
/// transient `Starting` and `EstablishMode`).
pub open spec fn is_resting(s: State) -> bool {
    s != State::Starting && s != State::EstablishMode
}

impl WtrCtl {
    pub open spec fn has_cycle(&self) -> bool {
        self.active_ptrs.cycle is Some
    }

    pub open spec fn has_errors(&self) -> bool {
        self.errors@.len() > 0
    }

    /// The fields that a handler leaves as they were.
    pub open spec fn same_ctl(&self, other: &WtrCtl) -> bool {
        &&& self.state == other.state
        &&& self.mode == other.mode
        &&& self.in_alert == other.in_alert
        &&& self.cmd_queue@ == other.cmd_queue@
        &&& self.internal == other.internal
        &&& ptr_list_items(self.std_ptrs) == ptr_list_items(other.std_ptrs)
        &&& self.wtr_secs@ == other.wtr_secs@
        &&& self.errors@ == other.errors@
    }

    /// The fields other than the errors stay as they were.
    pub open spec fn same_ctl_but_errors(&self, other: &WtrCtl) -> bool {
        &&& self.state == other.state
        &&& self.mode == other.mode
        &&& self.changed == other.changed
        &&& self.in_alert == other.in_alert
        &&& self.cmd_queue@ == other.cmd_queue@
        &&& self.active_ptrs == other.active_ptrs
        &&& self.internal == other.internal
        &&& ptr_list_items(self.std_ptrs) == ptr_list_items(other.std_ptrs)
        &&& self.wtr_secs@ == other.wtr_secs@
        &&& self.suspend_timeout == other.suspend_timeout
    }

    /// A machine in `state` and `mode`, with nothing running or queued.
    pub fn new(state: State, mode: Mode) -> (c: WtrCtl)
        ensures
            c.state == state,
            c.mode == mode,
            !c.changed,
            c.in_alert == 0,
            c.cmd_queue@ == Seq::<Command>::empty(),
            c.active_ptrs == (RunningPtr { cycle: None, sec_id: None, run_sec_ptr: None }),
            c.internal == (InternalPtr { wizard: None, direct: None, have_standard: false }),
            ptr_list_items(c.std_ptrs) == Seq::<CycleTuple>::empty(),
            c.wtr_secs@ == Seq::<(SectorId, SectorPtr)>::empty(),
            c.suspend_timeout is None,
            c.errors@ == Seq::<String>::empty(),
    {
        WtrCtl {
            state,
            mode,
            changed: false,
            in_alert: 0,
            cmd_queue: VecDeque::new(),
            active_ptrs: RunningPtr::new(),
            internal: InternalPtr { wizard: None, direct: None, have_standard: false },
            std_ptrs: ptr_list_new(),
            wtr_secs: VecDeque::new(),
            suspend_timeout: None,
            errors: Vec::new(),
        }
    }

    /// Queues a command.
    pub fn snd_command(&mut self, cmd: Command)
        ensures
            final(self).cmd_queue@ == old(self).cmd_queue@.push(cmd),
            final(self).state == old(self).state,
            final(self).mode == old(self).mode,
            final(self).changed == old(self).changed,
            final(self).active_ptrs == old(self).active_ptrs,
            final(self).errors@ == old(self).errors@,
            final(self).in_alert == old(self).in_alert,
            final(self).internal == old(self).internal,
            ptr_list_items(final(self).std_ptrs) == ptr_list_items(old(self).std_ptrs),
            final(self).wtr_secs@ == old(self).wtr_secs@,
            final(self).suspend_timeout == old(self).suspend_timeout,
    {
        self.cmd_queue.push_back(cmd);
    }

    /// Records an error message.
    pub fn push_error(&mut self, msg: String)
        ensures
            final(self).errors@ == old(self).errors@.push(msg),
            final(self).state == old(self).state,
            final(self).cmd_queue@ == old(self).cmd_queue@,
            final(self).active_ptrs == old(self).active_ptrs,
    {
        self.errors.push(msg);
    }

    /// `State::Error` when errors are pending, `state` otherwise.
    pub fn validate_errors(&self, state: State) -> (r: State)
        ensures
            r == (if self.has_errors() { State::Error } else { state }),
    {
        if self.errors.len() > 0 { State::Error } else { state }
    }

    /// See `interrupt_of`.
    pub fn is_interrupt_and_change_command(&self, cmd: &Command) -> (r: (State, bool, WateringStatus))
        ensures
            r == interrupt_of(*cmd, self.state, self.has_cycle()),
    {
        match *cmd {
            Command::ChangeMode(_) => (State::EstablishMode, true, WateringStatus::Terminated),
            Command::ShutDown => (State::Shutdown, true, WateringStatus::Terminated),
            Command::Error => (State::Error, true, WateringStatus::Error),
            _ => {
                if self.active_ptrs.cycle.is_some() {
                    (self.state, false, WateringStatus::Running)
                } else {
                    (self.state, false, WateringStatus::Waiting)
                }
            },
        }
    }

    /// The work of an interrupt: stop the active cycle with `status`, if any.
    pub fn process_interrupt(&self, status: WateringStatus) -> (a: Action)
        ensures
            a == interrupt_action(self.has_cycle(), status),
    {
        if self.active_ptrs.cycle.is_some() {
            Action::StopCycle { status }
        } else {
            Action::Nothing
        }
    }

    /// Starts a cycle that was not asked for manually, unless one is active:
    /// then no cycle is active afterwards and the conflict is reported.
    pub fn start_cycle_not_manual(&mut self, cycle_ptr: CyclePtr) -> (a: Action)
        ensures
            old(self).active_ptrs.cycle is None ==> {
                &&& final(self).active_ptrs == (RunningPtr { cycle: Some(cycle_ptr), ..old(self).active_ptrs })
                &&& a == (Action::StartCycle { manual: false, at: None })
            },
            old(self).active_ptrs.cycle is Some ==> {
                &&& final(self).active_ptrs == (RunningPtr { cycle: None, ..old(self).active_ptrs })
                &&& a == Action::CycleConflict
            },
            final(self).same_ctl(old(self)),
            final(self).changed == old(self).changed,
            final(self).suspend_timeout == old(self).suspend_timeout,
    {
        if self.active_ptrs.cycle.is_none() {
            self.active_ptrs.cycle = Some(cycle_ptr);
            Action::StartCycle { manual: false, at: None }
        } else {
            self.active_ptrs.cycle = None;
            Action::CycleConflict
        }
    }

    /// A change of the cycle definitions re-establishes the current mode.
    pub fn process_cycle_added(&mut self)
        ensures
            final(self).cmd_queue@ == old(self).cmd_queue@.push(Command::ChangeMode(old(self).mode)),
            final(self).state == old(self).state,
            final(self).mode == old(self).mode,
            final(self).active_ptrs == old(self).active_ptrs,
    {
        let m = self.mode;
        self.snd_command(Command::ChangeMode(m));
    }

    /// The current state.
    pub fn state(&self) -> (s: State)
        ensures
            s == self.state,
    {
        self.state
    }

    /// The current mode.
    pub fn get_mode(&self) -> (m: Mode)
        ensures
            m == self.mode,
    {
        self.mode
    }
}

impl WtrCtl {
    /// A weather alert of rain or wind suspends the watering (code
    /// `alert_code`); other alerts are ignored.
    pub fn process_alert(&mut self, alert_code: u8, rain_or_wind: bool)
        ensures
            rain_or_wind ==> final(self).in_alert == alert_code
                && final(self).cmd_queue@ == old(self).cmd_queue@.push(Command::Suspend(alert_code)),
            !rain_or_wind ==> final(self).in_alert == old(self).in_alert
                && final(self).cmd_queue@ == old(self).cmd_queue@,
            final(self).state == old(self).state,
            final(self).active_ptrs == old(self).active_ptrs,
            final(self).suspend_timeout == old(self).suspend_timeout,
    {
        if rain_or_wind {
            self.in_alert = alert_code;
            self.snd_command(Command::Suspend(alert_code));
        }
    }

    /// New weather while suspended: once it is below the alert thresholds the
    /// alert is cleared and the watering resumes.
    pub fn process_weather(&mut self, above_thresholds: bool)
        ensures
            (old(self).suspend_timeout is Some && !above_thresholds) ==> final(self).in_alert == 0
                && final(self).cmd_queue@ == old(self).cmd_queue@.push(Command::Resume),
            !(old(self).suspend_timeout is Some && !above_thresholds) ==> final(self).in_alert == old(self).in_alert
                && final(self).cmd_queue@ == old(self).cmd_queue@,
            final(self).state == old(self).state,
            final(self).active_ptrs == old(self).active_ptrs,
            final(self).suspend_timeout == old(self).suspend_timeout,
    {
        if self.suspend_timeout.is_some() {
            if !above_thresholds {
                self.in_alert = 0;
                self.snd_command(Command::Resume);
            }
        }
    }

    /// A command from outside; it is executed with the queued ones.
    pub fn process_command(&mut self, cmd: Command)
        ensures
            final(self).cmd_queue@ == old(self).cmd_queue@.push(cmd),
            final(self).state == old(self).state,
    {
        self.snd_command(cmd);
    }

    /// Asks the machine to shut down.
    pub fn terminate(&mut self)
        ensures
            final(self).cmd_queue@ == old(self).cmd_queue@.push(Command::ShutDown),
            final(self).state == old(self).state,
    {
        self.snd_command(Command::ShutDown);
    }
}

} // verus!
