//! The handlers of the machine states.  Each one takes a command and gives
//! the decision (`Step`) of that state; see `engine` for the protocol.
use vstd::prelude::*;
use crate::rega::{Command, CtrlTime, Mode, RunningPtr, State, WateringStatus};
use crate::engine::{Action, FollowUp, Step, WtrCtl, interrupt_of, interrupt_action, mode_wait_state, step};
use crate::ptr_list::{ptr_list_items, ptr_list_len};

verus! {

// ---------------------------------------------------------------------------
// The decisions, as spec functions of the control state before the command.

pub open spec fn no_schedule_def_step(c: &WtrCtl, cmd: Command) -> Step {
    let (s, intr, _) = interrupt_of(cmd, c.state, c.has_cycle());
    match cmd {
        Command::ChangeState if !intr => step(State::EstablishMode, Action::Nothing, FollowUp::Nothing, false),
        _ => step(s, Action::Nothing, FollowUp::Nothing, false),
    }
}

pub open spec fn establish_mode_step(c: &WtrCtl, cmd: Command) -> Step {
    match cmd {
        Command::ShutDown => step(State::Shutdown, Action::Nothing, FollowUp::Nothing, false),
        Command::Error => step(State::Error, Action::Nothing, FollowUp::Nothing, false),
        Command::ChangeMode(m) => step(mode_wait_state(m, ptr_list_items(c.std_ptrs).len() > 0),
            Action::EstablishCycles { mode: m, announce: true }, FollowUp::Nothing, true),
        Command::Start => step(mode_wait_state(c.mode, ptr_list_items(c.std_ptrs).len() > 0),
            Action::EstablishCycles { mode: c.mode, announce: true }, FollowUp::Nothing, true),
        _ => step(State::ManWait, Action::Nothing, FollowUp::Nothing, false),
    }
}

/// The mode that `EstablishMode` settles in for `cmd`, if it settles one.
pub open spec fn established_mode(c: &WtrCtl, cmd: Command) -> Mode {
    match cmd {
        Command::ChangeMode(m) => m,
        _ => c.mode,
    }
}

pub open spec fn manual_wait_step(c: &WtrCtl, cmd: Command, time: CtrlTime, sector_enabled: bool) -> Step {
    let (s, intr, _) = interrupt_of(cmd, c.state, c.has_cycle());
    if intr {
        step(s, Action::Nothing, FollowUp::Nothing, true)
    } else {
        match cmd {
            Command::ForceCycle(_) => step(State::ManWtrCycle, Action::StartCycle { manual: true, at: Some(time) },
                FollowUp::QueueAfterStart(c.internal.direct.unwrap()), true),
            Command::ForceSector(_) => if sector_enabled {
                step(State::ManWtrSectorDirect, Action::StartCycleAndSector { forced_start: time }, FollowUp::Nothing, true)
            } else {
                step(State::ManWait, Action::Nothing, FollowUp::Nothing, true)
            },
            Command::ChangeState => step(State::EstablishMode, Action::Nothing, FollowUp::Nothing, true),
            _ => step(State::ManWait, Action::Nothing, FollowUp::Nothing, true),
        }
    }
}

pub open spec fn manual_watering_cycle_step(c: &WtrCtl, cmd: Command) -> Step {
    let (s, intr, ws) = interrupt_of(cmd, c.state, c.has_cycle());
    if intr {
        step(s, Action::StopManCycle { cycle_id: None, status: ws }, FollowUp::Nothing, true)
    } else {
        match cmd {
            Command::StartSector => step(State::ManWtrSector, Action::StartSector, FollowUp::Nothing, true),
            Command::StopCycle(id) => step(State::ManWait,
                Action::StopManCycle { cycle_id: Some(id), status: WateringStatus::Terminated }, FollowUp::Nothing, true),
            Command::EndCycle(_) => step(State::ManWait, Action::StopCycle { status: WateringStatus::Terminated },
                FollowUp::Nothing, true),
            _ => step(s, Action::Nothing, FollowUp::Nothing, true),
        }
    }
}

pub open spec fn manual_watering_sector_step(c: &WtrCtl, cmd: Command) -> Step {
    let (s, intr, ws) = interrupt_of(cmd, c.state, c.has_cycle());
    if intr {
        step(s, Action::StopManCycle { cycle_id: None, status: ws }, FollowUp::Nothing, true)
    } else {
        match cmd {
            Command::EndSector(_) | Command::StopSector(_) => step(
                if c.wtr_secs@.len() == 0 { State::ManWait } else { State::ManWtrCycle },
                Action::StopSector, FollowUp::Nothing, true),
            Command::StopCycle(id) => step(State::ManWait,
                Action::StopManCycle { cycle_id: Some(id), status: WateringStatus::Terminated }, FollowUp::Nothing, true),
            _ => step(s, Action::Nothing, FollowUp::Nothing, true),
        }
    }
}

pub open spec fn manual_watering_sector_direct_step(c: &WtrCtl, cmd: Command) -> Step {
    let (s, intr, ws) = interrupt_of(cmd, c.state, c.has_cycle());
    if intr {
        step(s, interrupt_action(c.has_cycle(), ws), FollowUp::Nothing, true)
    } else {
        match cmd {
            Command::StopSector(_) => step(State::ManWait, Action::StopCycle { status: WateringStatus::Terminated },
                FollowUp::ResetAll, true),
            _ => step(s, Action::Nothing, FollowUp::Nothing, true),
        }
    }
}

/// The action of `start_cycle_not_manual` for the active cycle pointer given.
pub open spec fn not_manual_start_action(active: Option<u8>) -> Action {
    if active is None { Action::StartCycle { manual: false, at: None } } else { Action::CycleConflict }
}

pub open spec fn standard_wait_step(c: &WtrCtl, cmd: Command) -> Step {
    let (s, intr, ws) = interrupt_of(cmd, c.state, c.has_cycle());
    if intr {
        step(s, interrupt_action(c.has_cycle(), ws), FollowUp::Nothing, true)
    } else {
        match cmd {
            Command::StartCycle(p) => step(State::StdWtrCycle, not_manual_start_action(c.active_ptrs.cycle),
                FollowUp::QueueAfterStart(p), true),
            Command::ChangeState => step(State::EstablishMode, Action::Nothing, FollowUp::Nothing, true),
            _ => step(s, Action::Nothing, FollowUp::Nothing, true),
        }
    }
}

pub open spec fn standard_watering_cycle_step(c: &WtrCtl, cmd: Command) -> Step {
    let (s, intr, ws) = interrupt_of(cmd, c.state, c.has_cycle());
    if intr {
        step(s, interrupt_action(c.has_cycle(), ws), FollowUp::Nothing, true)
    } else {
        match cmd {
            Command::StartSector => step(State::StdWtrSector, Action::StartSector, FollowUp::Nothing, true),
            Command::StopCycle(_) => step(State::StdWait,
                interrupt_action(c.has_cycle(), WateringStatus::Terminated), FollowUp::Nothing, true),
            Command::EndCycle(_) => step(State::StdWait, Action::StopCycle { status: WateringStatus::Terminated },
                FollowUp::Nothing, true),
            _ => step(s, Action::Nothing, FollowUp::Nothing, true),
        }
    }
}

pub open spec fn standard_watering_sector_step(c: &WtrCtl, cmd: Command) -> Step {
    let (s, intr, ws) = interrupt_of(cmd, c.state, c.has_cycle());
    if intr {
        step(s, interrupt_action(c.has_cycle(), ws), FollowUp::Nothing, true)
    } else {
        match cmd {
            Command::EndSector(_) => step(State::StdWtrCycle,
                if c.wtr_secs@.len() == 0 { Action::Nothing } else { Action::StopSector }, FollowUp::Nothing, true),
            Command::StopCycle(_) => step(State::StdWait,
                interrupt_action(c.has_cycle(), WateringStatus::Terminated), FollowUp::Nothing, true),
            _ => step(s, Action::Nothing, FollowUp::Nothing, true),
        }
    }
}

pub open spec fn wizard_wait_step(c: &WtrCtl, cmd: Command) -> Step {
    let (s, intr, ws) = interrupt_of(cmd, c.state, c.has_cycle());
    if intr {
        step(s, interrupt_action(c.has_cycle(), ws), FollowUp::Nothing, true)
    } else {
        match cmd {
            Command::StartCycle(p) => step(State::WzrWtrCycle, not_manual_start_action(c.active_ptrs.cycle),
                FollowUp::QueueAfterWizardStart(p), true),
            Command::ChangeState => step(State::EstablishMode, Action::Nothing, FollowUp::Nothing, true),
            _ => step(s, Action::Nothing, FollowUp::Nothing, true),
        }
    }
}

pub open spec fn wizard_watering_cycle_step(c: &WtrCtl, cmd: Command) -> Step {
    let (s, intr, ws) = interrupt_of(cmd, c.state, c.has_cycle());
    if intr {
        step(s, interrupt_action(c.has_cycle(), ws), FollowUp::Nothing, true)
    } else {
        match cmd {
            Command::StartSector => step(State::WzrWtrSector, Action::StartSector, FollowUp::Nothing, true),
            Command::EndCycle(_) => step(State::WzrWait, Action::StopCycle { status: WateringStatus::Terminated },
                FollowUp::Nothing, true),
            Command::Suspend(_) => step(State::SuspendedWizard, Action::Suspend, FollowUp::Nothing, true),
            Command::StopCycle(_) => step(State::WzrWait,
                interrupt_action(c.has_cycle(), WateringStatus::Terminated), FollowUp::Nothing, true),
            _ => step(s, Action::Nothing, FollowUp::Nothing, true),
        }
    }
}

pub open spec fn wizard_watering_sector_step(c: &WtrCtl, cmd: Command) -> Step {
    let (s, intr, ws) = interrupt_of(cmd, c.state, c.has_cycle());
    if intr {
        step(s, interrupt_action(c.has_cycle(), ws), FollowUp::Nothing, true)
    } else {
        match cmd {
            Command::Suspend(_) => step(State::SuspendedWizard, Action::Suspend, FollowUp::Nothing, true),
            Command::StopCycle(_) => step(State::WzrWait,
                interrupt_action(c.has_cycle(), WateringStatus::Terminated), FollowUp::Nothing, true),
            Command::EndSector(_) | Command::StopSector(_) => step(State::WzrWtrCycle,
                if c.wtr_secs@.len() == 0 { Action::Nothing } else { Action::StopSector }, FollowUp::Nothing, true),
            _ => step(s, Action::Nothing, FollowUp::Nothing, true),
        }
    }
}

pub open spec fn suspended_wizard_step(c: &WtrCtl, cmd: Command) -> Step {
    let (s, intr, ws) = interrupt_of(cmd, c.state, c.has_cycle());
    if intr {
        step(s, interrupt_action(c.has_cycle(), ws), FollowUp::Nothing, true)
    } else {
        match cmd {
            Command::Resume => step(s, Action::Resume, FollowUp::AfterResume, true),
            Command::ResumeTimeOut => step(State::WzrWait, Action::StopCycle { status: WateringStatus::SuspendedTimeout },
                FollowUp::Nothing, true),
            _ => step(s, Action::Nothing, FollowUp::Nothing, true),
        }
    }
}

pub open spec fn error_step(c: &WtrCtl, cmd: Command) -> Step {
    let action = match c.active_ptrs {
        RunningPtr { cycle: Some(_), sec_id: Some(sec_id), run_sec_ptr: Some(run_sec_ptr) } =>
            Action::StopSectorOnError { sec_id, run_sec_ptr },
        _ => Action::Nothing,
    };
    let next = match cmd {
        Command::ChangeMode(_) => State::EstablishMode,
        Command::ShutDown => State::Shutdown,
        _ => State::Error,
    };
    step(next, action, FollowUp::DrainErrors, false)
}

/// The commands that interrupt any state but `EstablishMode`.
pub open spec fn is_interrupt(cmd: Command) -> bool {
    cmd is ChangeMode || cmd is ShutDown || cmd is Error
}

/// Whether the handler of state `st` marks the machine as changed for `cmd`.
pub open spec fn marks_changed(st: State, cmd: Command, sector_enabled: bool) -> bool {
    let intr = is_interrupt(cmd);
    match st {
        State::EstablishMode => cmd is ChangeMode || cmd is Start || cmd is ShutDown || cmd is Error,
        State::ManWait => intr || cmd is ForceCycle || (cmd is ForceSector && sector_enabled),
        State::ManWtrCycle => intr || cmd is StartSector || cmd is StopCycle || cmd is EndCycle,
        State::ManWtrSector => intr || cmd is EndSector || cmd is StopSector || cmd is StopCycle,
        State::ManWtrSectorDirect => intr || cmd is StopSector,
        State::StdWait | State::WzrWait => intr || cmd is StartCycle,
        State::StdWtrCycle => intr || cmd is StartSector || cmd is StopCycle || cmd is EndCycle,
        State::StdWtrSector => intr || cmd is EndSector || cmd is StopCycle,
        State::WzrWtrCycle => intr || cmd is StartSector || cmd is EndCycle || cmd is Suspend || cmd is StopCycle,
        State::WzrWtrSector => intr || cmd is Suspend || cmd is StopCycle || cmd is EndSector || cmd is StopSector,
        State::SuspendedWizard => intr || cmd is Resume || cmd is ResumeTimeOut,
        _ => false,
    }
}

// ---------------------------------------------------------------------------
// The handlers.

pub trait NoScheduleDef {
    fn no_schedule_def(&mut self, cmd: &Command) -> Step;
}

pub trait EstablishMode {
    fn establish_mode(&mut self, cmd: &Command) -> Step;
}

pub trait ManualWait {
    /// Whether the machine can act on `cmd`: forcing a cycle or an enabled
    /// sector needs the direct cycle.
    spec fn manual_wait_allowed(&self, cmd: Command, sector_enabled: bool) -> bool;

    fn manual_wait(&mut self, cmd: &Command, time: CtrlTime, sector_enabled: bool) -> Step
        requires
            old(self).manual_wait_allowed(*cmd, sector_enabled);
}

pub trait ManualWateringCycle {
    fn manual_watering_cycle(&mut self, cmd: &Command) -> Step;
}

pub trait ManualWateringSector {
    fn manual_watering_sector(&mut self, cmd: &Command) -> Step;
}

pub trait ManualWateringSectorDirect {
    fn manual_watering_sector_direct(&mut self, cmd: &Command) -> Step;
}

pub trait StandardWait {
    fn standard_wait(&mut self, cmd: &Command) -> Step;
}

pub trait StandardWateringCycle {
    fn standard_watering_cycle(&mut self, cmd: &Command) -> Step;
}

pub trait StandardWateringSector {
    /// Whether the machine can act on `cmd`: ending the last sector queues
    /// the end of the active cycle, so there must be one.
    spec fn std_sector_allowed(&self, cmd: Command) -> bool;

    fn standard_watering_sector(&mut self, cmd: &Command) -> Step
        requires
            old(self).std_sector_allowed(*cmd);
}

pub trait WizardWait {
    fn wizard_wait(&mut self, cmd: &Command) -> Step;
}

pub trait WizardWateringCycle {
    fn wizard_watering_cycle(&mut self, cmd: &Command) -> Step;
}

pub trait WizardWateringSector {
    /// As for `StandardWateringSector`.
    spec fn wzr_sector_allowed(&self, cmd: Command) -> bool;

    fn wizard_watering_sector(&mut self, cmd: &Command) -> Step
        requires
            old(self).wzr_sector_allowed(*cmd);
}

pub trait SuspendedWizard {
    fn suspended_wizard(&mut self, cmd: &Command) -> Step;
}

pub trait Error {
    fn error(&mut self, cmd: &Command) -> Step;
}

pub trait Shutdown {
    fn shut_down(&self) -> State;
}

pub trait Starting {
    fn starting_next(&self) -> State;
}

impl NoScheduleDef for WtrCtl {
    fn no_schedule_def(&mut self, cmd: &Command) -> (s: Step)
        ensures
            s == no_schedule_def_step(old(self), *cmd),
            *final(self) == *old(self),
    {
        let (st, interrupt, _) = self.is_interrupt_and_change_command(cmd);
        match *cmd {
            Command::ChangeState if !interrupt => Step {
                next: State::EstablishMode, action: Action::Nothing, follow: FollowUp::Nothing, check_errors: false,
            },
            _ => Step { next: st, action: Action::Nothing, follow: FollowUp::Nothing, check_errors: false },
        }
    }
}

impl EstablishMode for WtrCtl {
    fn establish_mode(&mut self, cmd: &Command) -> (s: Step)
        ensures
            s == establish_mode_step(old(self), *cmd),
            final(self).mode == (if cmd is ChangeMode || cmd is Start { established_mode(old(self), *cmd) } else {
                old(self).mode
            }),
            final(self).changed == (old(self).changed || cmd is ChangeMode || cmd is Start || cmd is ShutDown || cmd is Error),
            final(self).state == old(self).state,
            final(self).in_alert == old(self).in_alert,
            final(self).cmd_queue@ == old(self).cmd_queue@,
            final(self).internal == old(self).internal,
            ptr_list_items(final(self).std_ptrs) == ptr_list_items(old(self).std_ptrs),
            final(self).wtr_secs@ == old(self).wtr_secs@,
            final(self).errors@ == old(self).errors@,
            final(self).active_ptrs == old(self).active_ptrs,
            final(self).suspend_timeout == old(self).suspend_timeout,
    {
        let nothing = FollowUp::Nothing;
        match *cmd {
            Command::ShutDown => {
                self.changed = true;
                return Step { next: State::Shutdown, action: Action::Nothing, follow: nothing, check_errors: false };
            },
            Command::Error => {
                self.changed = true;
                return Step { next: State::Error, action: Action::Nothing, follow: nothing, check_errors: false };
            },
            _ => {},
        }
        let mode = match *cmd {
            Command::ChangeMode(m) => m,
            Command::Start => self.mode,
            _ => {
                return Step { next: State::ManWait, action: Action::Nothing, follow: nothing, check_errors: false };
            },
        };
        self.mode = mode;
        let have_std = ptr_list_len(&self.std_ptrs) > 0;
        let next = match mode {
            Mode::Manual => State::ManWait,
            Mode::Wizard => State::WzrWait,
            Mode::Standard => if have_std { State::StdWait } else { State::NoScheduleDef },
        };
        self.changed = true;
        Step { next, action: Action::EstablishCycles { mode, announce: true }, follow: nothing, check_errors: true }
    }
}

impl ManualWait for WtrCtl {
    open spec fn manual_wait_allowed(&self, cmd: Command, sector_enabled: bool) -> bool {
        let (_, intr, _) = interrupt_of(cmd, self.state, self.has_cycle());
        !intr && (cmd is ForceCycle || (cmd is ForceSector && sector_enabled)) ==> self.internal.direct is Some
    }

    fn manual_wait(&mut self, cmd: &Command, time: CtrlTime, sector_enabled: bool) -> (s: Step)
        ensures
            s == manual_wait_step(old(self), *cmd, time, sector_enabled),
            final(self).changed == (old(self).changed || marks_changed(State::ManWait, *cmd, sector_enabled)),
            final(self).same_ctl(old(self)),
            final(self).suspend_timeout == old(self).suspend_timeout,
            final(self).active_ptrs == (match *cmd {
                Command::ForceCycle(_) if s.action != Action::Nothing => RunningPtr {
                    cycle: old(self).internal.direct, ..old(self).active_ptrs },
                Command::ForceSector(id) if s.action != Action::Nothing => RunningPtr {
                    cycle: old(self).internal.direct, sec_id: Some(id), ..old(self).active_ptrs },
                _ => old(self).active_ptrs,
            }),
    {
        let (st, interrupt, _) = self.is_interrupt_and_change_command(cmd);
        if !interrupt {
            match *cmd {
                Command::ForceCycle(_) => {
                    self.changed = true;
                    let cycle_ptr = self.internal.direct.unwrap();
                    self.active_ptrs.cycle = Some(cycle_ptr);
                    Step {
                        next: State::ManWtrCycle,
                        action: Action::StartCycle { manual: true, at: Some(time) },
                        follow: FollowUp::QueueAfterStart(cycle_ptr),
                        check_errors: true,
                    }
                },
                Command::ForceSector(sector_id) => {
                    if sector_enabled {
                        self.changed = true;
                        let cycle_ptr = self.internal.direct.unwrap();
                        self.active_ptrs.cycle = Some(cycle_ptr);
                        self.active_ptrs.sec_id = Some(sector_id);
                        Step {
                            next: State::ManWtrSectorDirect,
                            action: Action::StartCycleAndSector { forced_start: time },
                            follow: FollowUp::Nothing,
                            check_errors: true,
                        }
                    } else {
                        Step { next: State::ManWait, action: Action::Nothing, follow: FollowUp::Nothing, check_errors: true }
                    }
                },
                Command::ChangeState => Step {
                    next: State::EstablishMode, action: Action::Nothing, follow: FollowUp::Nothing, check_errors: true,
                },
                _ => Step { next: State::ManWait, action: Action::Nothing, follow: FollowUp::Nothing, check_errors: true },
            }
        } else {
            self.changed = true;
            Step { next: st, action: Action::Nothing, follow: FollowUp::Nothing, check_errors: true }
        }
    }
}

impl ManualWateringCycle for WtrCtl {
    fn manual_watering_cycle(&mut self, cmd: &Command) -> (s: Step)
        ensures
            s == manual_watering_cycle_step(old(self), *cmd),
            final(self).changed == (old(self).changed || marks_changed(State::ManWtrCycle, *cmd, false)),
            final(self).same_ctl(old(self)),
            final(self).active_ptrs == old(self).active_ptrs,
            final(self).suspend_timeout == old(self).suspend_timeout,
    {
        let (st, interrupt, ws) = self.is_interrupt_and_change_command(cmd);
        if !interrupt {
            match *cmd {
                Command::StartSector => {
                    self.changed = true;
                    Step { next: State::ManWtrSector, action: Action::StartSector, follow: FollowUp::Nothing, check_errors: true }
                },
                Command::StopCycle(id) => {
                    self.changed = true;
                    Step {
                        next: State::ManWait,
                        action: Action::StopManCycle { cycle_id: Some(id), status: WateringStatus::Terminated },
                        follow: FollowUp::Nothing,
                        check_errors: true,
                    }
                },
                Command::EndCycle(_) => {
                    self.changed = true;
                    Step {
                        next: State::ManWait,
                        action: Action::StopCycle { status: WateringStatus::Terminated },
                        follow: FollowUp::Nothing,
                        check_errors: true,
                    }
                },
                _ => Step { next: st, action: Action::Nothing, follow: FollowUp::Nothing, check_errors: true },
            }
        } else {
            self.changed = true;
            Step {
                next: st,
                action: Action::StopManCycle { cycle_id: None, status: ws },
                follow: FollowUp::Nothing,
                check_errors: true,
            }
        }
    }
}

impl ManualWateringSector for WtrCtl {
    fn manual_watering_sector(&mut self, cmd: &Command) -> (s: Step)
        ensures
            s == manual_watering_sector_step(old(self), *cmd),
            final(self).changed == (old(self).changed || marks_changed(State::ManWtrSector, *cmd, false)),
            final(self).same_ctl(old(self)),
            final(self).active_ptrs == old(self).active_ptrs,
            final(self).suspend_timeout == old(self).suspend_timeout,
    {
        let (st, interrupt, ws) = self.is_interrupt_and_change_command(cmd);
        if !interrupt {
            match *cmd {
                Command::EndSector(_) | Command::StopSector(_) => {
                    self.changed = true;
                    let next = if self.wtr_secs.len() == 0 { State::ManWait } else { State::ManWtrCycle };
                    Step { next, action: Action::StopSector, follow: FollowUp::Nothing, check_errors: true }
                },
                Command::StopCycle(id) => {
                    self.changed = true;
                    Step {
                        next: State::ManWait,
                        action: Action::StopManCycle { cycle_id: Some(id), status: WateringStatus::Terminated },
                        follow: FollowUp::Nothing,
                        check_errors: true,
                    }
                },
                _ => Step { next: st, action: Action::Nothing, follow: FollowUp::Nothing, check_errors: true },
            }
        } else {
            self.changed = true;
            Step {
                next: st,
                action: Action::StopManCycle { cycle_id: None, status: ws },
                follow: FollowUp::Nothing,
                check_errors: true,
            }
        }
    }
}

impl ManualWateringSectorDirect for WtrCtl {
    fn manual_watering_sector_direct(&mut self, cmd: &Command) -> (s: Step)
        ensures
            s == manual_watering_sector_direct_step(old(self), *cmd),
            final(self).changed == (old(self).changed || marks_changed(State::ManWtrSectorDirect, *cmd, false)),
            final(self).same_ctl(old(self)),
            final(self).active_ptrs == old(self).active_ptrs,
            final(self).suspend_timeout == old(self).suspend_timeout,
    {
        let (st, interrupt, ws) = self.is_interrupt_and_change_command(cmd);
        if !interrupt {
            match *cmd {
                Command::StopSector(_) => {
                    self.changed = true;
                    Step {
                        next: State::ManWait,
                        action: Action::StopCycle { status: WateringStatus::Terminated },
                        follow: FollowUp::ResetAll,
                        check_errors: true,
                    }
                },
                _ => Step { next: st, action: Action::Nothing, follow: FollowUp::Nothing, check_errors: true },
            }
        } else {
            self.changed = true;
            let action = self.process_interrupt(ws);
            Step { next: st, action, follow: FollowUp::Nothing, check_errors: true }
        }
    }
}

impl StandardWait for WtrCtl {
    fn standard_wait(&mut self, cmd: &Command) -> (s: Step)
        ensures
            s == standard_wait_step(old(self), *cmd),
            final(self).changed == (old(self).changed || marks_changed(State::StdWait, *cmd, false)),
            final(self).same_ctl(old(self)),
            final(self).suspend_timeout == old(self).suspend_timeout,
            final(self).active_ptrs == (match *cmd {
                Command::StartCycle(p) => RunningPtr {
                    cycle: if old(self).active_ptrs.cycle is None { Some(p) } else { None }, ..old(self).active_ptrs },
                _ => old(self).active_ptrs,
            }),
    {
        let (st, interrupt, ws) = self.is_interrupt_and_change_command(cmd);
        if !interrupt {
            match *cmd {
                Command::StartCycle(cycle_ptr) => {
                    self.changed = true;
                    let action = self.start_cycle_not_manual(cycle_ptr);
                    Step { next: State::StdWtrCycle, action, follow: FollowUp::QueueAfterStart(cycle_ptr), check_errors: true }
                },
                Command::ChangeState => Step {
                    next: State::EstablishMode, action: Action::Nothing, follow: FollowUp::Nothing, check_errors: true,
                },
                _ => Step { next: st, action: Action::Nothing, follow: FollowUp::Nothing, check_errors: true },
            }
        } else {
            self.changed = true;
            let action = self.process_interrupt(ws);
            Step { next: st, action, follow: FollowUp::Nothing, check_errors: true }
        }
    }
}

impl StandardWateringCycle for WtrCtl {
    fn standard_watering_cycle(&mut self, cmd: &Command) -> (s: Step)
        ensures
            s == standard_watering_cycle_step(old(self), *cmd),
            final(self).changed == (old(self).changed || marks_changed(State::StdWtrCycle, *cmd, false)),
            final(self).same_ctl(old(self)),
            final(self).active_ptrs == old(self).active_ptrs,
            final(self).suspend_timeout == old(self).suspend_timeout,
    {
        let (st, interrupt, ws) = self.is_interrupt_and_change_command(cmd);
        if !interrupt {
            match *cmd {
                Command::StartSector => {
                    self.changed = true;
                    Step { next: State::StdWtrSector, action: Action::StartSector, follow: FollowUp::Nothing, check_errors: true }
                },
                Command::StopCycle(_) => {
                    self.changed = true;
                    let action = self.process_interrupt(WateringStatus::Terminated);
                    Step { next: State::StdWait, action, follow: FollowUp::Nothing, check_errors: true }
                },
                Command::EndCycle(_) => {
                    self.changed = true;
                    Step {
                        next: State::StdWait,
                        action: Action::StopCycle { status: WateringStatus::Terminated },
                        follow: FollowUp::Nothing,
                        check_errors: true,
                    }
                },
                _ => Step { next: st, action: Action::Nothing, follow: FollowUp::Nothing, check_errors: true },
            }
        } else {
            self.changed = true;
            let action = self.process_interrupt(ws);
            Step { next: st, action, follow: FollowUp::Nothing, check_errors: true }
        }
    }
}

/// Ending the last sector of the queue queues the end of the active cycle.
/// In the wizard watering state, whether ending or stopping the sector, with
/// no sector left to water, queues the end of the cycle.
pub open spec fn wzr_sector_ends(c: &WtrCtl, cmd: Command) -> bool {
    !is_interrupt(cmd) && (cmd is EndSector || cmd is StopSector) && c.wtr_secs@.len() == 0
}

pub open spec fn end_sector_queues_end(c: &WtrCtl, cmd: Command) -> bool {
    !is_interrupt(cmd) && cmd is EndSector && c.wtr_secs@.len() == 0
}

impl StandardWateringSector for WtrCtl {
    open spec fn std_sector_allowed(&self, cmd: Command) -> bool {
        end_sector_queues_end(self, cmd) ==> self.active_ptrs.cycle is Some
    }

    fn standard_watering_sector(&mut self, cmd: &Command) -> (s: Step)
        ensures
            s == standard_watering_sector_step(old(self), *cmd),
            final(self).changed == (old(self).changed || marks_changed(State::StdWtrSector, *cmd, false)),
            final(self).cmd_queue@ == (if end_sector_queues_end(old(self), *cmd) {
                old(self).cmd_queue@.push(Command::EndCycle(old(self).active_ptrs.cycle.unwrap()))
            } else {
                old(self).cmd_queue@
            }),
            final(self).state == old(self).state,
            final(self).mode == old(self).mode,
            final(self).in_alert == old(self).in_alert,
            final(self).internal == old(self).internal,
            ptr_list_items(final(self).std_ptrs) == ptr_list_items(old(self).std_ptrs),
            final(self).wtr_secs@ == old(self).wtr_secs@,
            final(self).errors@ == old(self).errors@,
            final(self).active_ptrs == old(self).active_ptrs,
            final(self).suspend_timeout == old(self).suspend_timeout,
    {
        let (st, interrupt, ws) = self.is_interrupt_and_change_command(cmd);
        if !interrupt {
            match *cmd {
                Command::EndSector(_) => {
                    self.changed = true;
                    if self.wtr_secs.len() == 0 {
                        let c = self.active_ptrs.cycle.unwrap();
                        self.snd_command(Command::EndCycle(c));
                        Step { next: State::StdWtrCycle, action: Action::Nothing, follow: FollowUp::Nothing, check_errors: true }
                    } else {
                        Step { next: State::StdWtrCycle, action: Action::StopSector, follow: FollowUp::Nothing, check_errors: true }
                    }
                },
                Command::StopCycle(_) => {
                    self.changed = true;
                    let action = self.process_interrupt(WateringStatus::Terminated);
                    Step { next: State::StdWait, action, follow: FollowUp::Nothing, check_errors: true }
                },
                _ => Step { next: st, action: Action::Nothing, follow: FollowUp::Nothing, check_errors: true },
            }
        } else {
            self.changed = true;
            let action = self.process_interrupt(ws);
            Step { next: st, action, follow: FollowUp::Nothing, check_errors: true }
        }
    }
}

impl WizardWait for WtrCtl {
    fn wizard_wait(&mut self, cmd: &Command) -> (s: Step)
        ensures
            s == wizard_wait_step(old(self), *cmd),
            final(self).changed == (old(self).changed || marks_changed(State::WzrWait, *cmd, false)),
            final(self).same_ctl(old(self)),
            final(self).suspend_timeout == old(self).suspend_timeout,
            final(self).active_ptrs == (match *cmd {
                Command::StartCycle(p) => RunningPtr {
                    cycle: if old(self).active_ptrs.cycle is None { Some(p) } else { None }, ..old(self).active_ptrs },
                _ => old(self).active_ptrs,
            }),
    {
        let (st, interrupt, ws) = self.is_interrupt_and_change_command(cmd);
        if !interrupt {
            match *cmd {
                Command::StartCycle(cycle_ptr) => {
                    self.changed = true;
                    let action = self.start_cycle_not_manual(cycle_ptr);
                    Step {
                        next: State::WzrWtrCycle,
                        action,
                        follow: FollowUp::QueueAfterWizardStart(cycle_ptr),
                        check_errors: true,
                    }
                },
                Command::ChangeState => Step {
                    next: State::EstablishMode, action: Action::Nothing, follow: FollowUp::Nothing, check_errors: true,
                },
                _ => Step { next: st, action: Action::Nothing, follow: FollowUp::Nothing, check_errors: true },
            }
        } else {
            self.changed = true;
            let action = self.process_interrupt(ws);
            Step { next: st, action, follow: FollowUp::Nothing, check_errors: true }
        }
    }
}

impl WizardWateringCycle for WtrCtl {
    fn wizard_watering_cycle(&mut self, cmd: &Command) -> (s: Step)
        ensures
            s == wizard_watering_cycle_step(old(self), *cmd),
            final(self).changed == (old(self).changed || marks_changed(State::WzrWtrCycle, *cmd, false)),
            final(self).same_ctl(old(self)),
            final(self).active_ptrs == old(self).active_ptrs,
            final(self).suspend_timeout == old(self).suspend_timeout,
    {
        let (st, interrupt, ws) = self.is_interrupt_and_change_command(cmd);
        if !interrupt {
            match *cmd {
                Command::StartSector => {
                    self.changed = true;
                    Step { next: State::WzrWtrSector, action: Action::StartSector, follow: FollowUp::Nothing, check_errors: true }
                },
                Command::EndCycle(_) => {
                    self.changed = true;
                    Step {
                        next: State::WzrWait,
                        action: Action::StopCycle { status: WateringStatus::Terminated },
                        follow: FollowUp::Nothing,
                        check_errors: true,
                    }
                },
                Command::Suspend(_) => {
                    self.changed = true;
                    Step { next: State::SuspendedWizard, action: Action::Suspend, follow: FollowUp::Nothing, check_errors: true }
                },
                Command::StopCycle(_) => {
                    self.changed = true;
                    let action = self.process_interrupt(WateringStatus::Terminated);
                    Step { next: State::WzrWait, action, follow: FollowUp::Nothing, check_errors: true }
                },
                _ => Step { next: st, action: Action::Nothing, follow: FollowUp::Nothing, check_errors: true },
            }
        } else {
            self.changed = true;
            let action = self.process_interrupt(ws);
            Step { next: st, action, follow: FollowUp::Nothing, check_errors: true }
        }
    }
}

impl WizardWateringSector for WtrCtl {
    open spec fn wzr_sector_allowed(&self, cmd: Command) -> bool {
        wzr_sector_ends(self, cmd) ==> self.active_ptrs.cycle is Some
    }

    fn wizard_watering_sector(&mut self, cmd: &Command) -> (s: Step)
        ensures
            s == wizard_watering_sector_step(old(self), *cmd),
            final(self).changed == (old(self).changed || marks_changed(State::WzrWtrSector, *cmd, false)),
            final(self).cmd_queue@ == (if wzr_sector_ends(old(self), *cmd) {
                old(self).cmd_queue@.push(Command::EndCycle(old(self).active_ptrs.cycle.unwrap()))
            } else {
                old(self).cmd_queue@
            }),
            final(self).state == old(self).state,
            final(self).mode == old(self).mode,
            final(self).in_alert == old(self).in_alert,
            final(self).internal == old(self).internal,
            ptr_list_items(final(self).std_ptrs) == ptr_list_items(old(self).std_ptrs),
            final(self).wtr_secs@ == old(self).wtr_secs@,
            final(self).errors@ == old(self).errors@,
            final(self).active_ptrs == old(self).active_ptrs,
            final(self).suspend_timeout == old(self).suspend_timeout,
    {
        let (st, interrupt, ws) = self.is_interrupt_and_change_command(cmd);
        if !interrupt {
            match *cmd {
                Command::Suspend(_) => {
                    self.changed = true;
                    Step { next: State::SuspendedWizard, action: Action::Suspend, follow: FollowUp::Nothing, check_errors: true }
                },
                Command::StopCycle(_) => {
                    self.changed = true;
                    let action = self.process_interrupt(WateringStatus::Terminated);
                    Step { next: State::WzrWait, action, follow: FollowUp::Nothing, check_errors: true }
                },
                Command::EndSector(_) | Command::StopSector(_) => {
                    self.changed = true;
                    if self.wtr_secs.len() == 0 {
                        let c = self.active_ptrs.cycle.unwrap();
                        self.snd_command(Command::EndCycle(c));
                        Step { next: State::WzrWtrCycle, action: Action::Nothing, follow: FollowUp::Nothing, check_errors: true }
                    } else {
                        Step { next: State::WzrWtrCycle, action: Action::StopSector, follow: FollowUp::Nothing, check_errors: true }
                    }
                },
                _ => Step { next: st, action: Action::Nothing, follow: FollowUp::Nothing, check_errors: true },
            }
        } else {
            self.changed = true;
            let action = self.process_interrupt(ws);
            Step { next: st, action, follow: FollowUp::Nothing, check_errors: true }
        }
    }
}

impl SuspendedWizard for WtrCtl {
    fn suspended_wizard(&mut self, cmd: &Command) -> (s: Step)
        ensures
            s == suspended_wizard_step(old(self), *cmd),
            final(self).changed == (old(self).changed || marks_changed(State::SuspendedWizard, *cmd, false)),
            final(self).same_ctl(old(self)),
            final(self).active_ptrs == old(self).active_ptrs,
            final(self).suspend_timeout == (if !is_interrupt(*cmd) && (cmd is Resume || cmd is ResumeTimeOut) {
                None
            } else {
                old(self).suspend_timeout
            }),
    {
        let (st, interrupt, ws) = self.is_interrupt_and_change_command(cmd);
        if !interrupt {
            match *cmd {
                Command::Resume => {
                    self.suspend_timeout = None;
                    self.changed = true;
                    Step { next: st, action: Action::Resume, follow: FollowUp::AfterResume, check_errors: true }
                },
                Command::ResumeTimeOut => {
                    self.suspend_timeout = None;
                    self.changed = true;
                    Step {
                        next: State::WzrWait,
                        action: Action::StopCycle { status: WateringStatus::SuspendedTimeout },
                        follow: FollowUp::Nothing,
                        check_errors: true,
                    }
                },
                _ => Step { next: st, action: Action::Nothing, follow: FollowUp::Nothing, check_errors: true },
            }
        } else {
            self.changed = true;
            let action = self.process_interrupt(ws);
            Step { next: st, action, follow: FollowUp::Nothing, check_errors: true }
        }
    }
}

impl Error for WtrCtl {
    fn error(&mut self, cmd: &Command) -> (s: Step)
        ensures
            s == error_step(old(self), *cmd),
            *final(self) == *old(self),
    {
        let action = match self.active_ptrs {
            RunningPtr { cycle: Some(_), sec_id: Some(sec_id), run_sec_ptr: Some(run_sec_ptr) } =>
                Action::StopSectorOnError { sec_id, run_sec_ptr },
            _ => Action::Nothing,
        };
        let next = match *cmd {
            Command::ChangeMode(_) => State::EstablishMode,
            Command::ShutDown => State::Shutdown,
            _ => State::Error,
        };
        Step { next, action, follow: FollowUp::DrainErrors, check_errors: false }
    }
}

impl Shutdown for WtrCtl {
    /// The shutdown state is terminal.
    fn shut_down(&self) -> (s: State)
        ensures
            s == State::Shutdown,
    {
        State::Shutdown
    }
}

impl Starting for WtrCtl {
    /// Where the machine goes once started: standard mode needs standard cycles.
    fn starting_next(&self) -> (s: State)
        ensures
            s == (if self.mode != Mode::Standard || self.internal.have_standard {
                State::EstablishMode
            } else {
                State::NoScheduleDef
            }),
    {
        if !self.mode.is_standard() || self.internal.have_standard {
            State::EstablishMode
        } else {
            State::NoScheduleDef
        }
    }
}

} // verus!
