//! Running commands through the state handlers, finishing each step once its
//! work is done, and turning the passage of time into commands.
use vstd::prelude::*;
use crate::rega::{Command, CtrlTime, CyclePtr, RunningPtr, State};
use crate::engine::{FollowUp, Step, WtrCtl, step};
use crate::ptr_list::{ptr_list_as_slice, ptr_list_items};
use crate::states::{
    Error, EstablishMode, ManualWait, ManualWateringCycle, ManualWateringSector, ManualWateringSectorDirect,
    NoScheduleDef, Shutdown, StandardWait, StandardWateringCycle, StandardWateringSector, SuspendedWizard,
    WizardWait, WizardWateringCycle, WizardWateringSector, end_sector_queues_end, wzr_sector_ends, error_step,
    establish_mode_step, manual_wait_step, manual_watering_cycle_step, manual_watering_sector_direct_step,
    manual_watering_sector_step, no_schedule_def_step, standard_wait_step, standard_watering_cycle_step,
    standard_watering_sector_step, suspended_wizard_step, wizard_wait_step, wizard_watering_cycle_step,
    wizard_watering_sector_step, is_interrupt, established_mode, marks_changed,
};

verus! {

/// The decision of the handler of `c.state` for `cmd` (the `Starting` state
/// is handled by the caller, which reloads the machine).
pub open spec fn dispatch_step(c: &WtrCtl, cmd: Command, time: CtrlTime, sector_enabled: bool) -> Step {
    match c.state {
        State::NoScheduleDef => no_schedule_def_step(c, cmd),
        State::EstablishMode => establish_mode_step(c, cmd),
        State::ManWait => manual_wait_step(c, cmd, time, sector_enabled),
        State::WzrWait => wizard_wait_step(c, cmd),
        State::StdWait => standard_wait_step(c, cmd),
        State::ManWtrCycle => manual_watering_cycle_step(c, cmd),
        State::StdWtrCycle => standard_watering_cycle_step(c, cmd),
        State::WzrWtrCycle => wizard_watering_cycle_step(c, cmd),
        State::ManWtrSector => manual_watering_sector_step(c, cmd),
        State::StdWtrSector => standard_watering_sector_step(c, cmd),
        State::WzrWtrSector => wizard_watering_sector_step(c, cmd),
        State::ManWtrSectorDirect => manual_watering_sector_direct_step(c, cmd),
        State::SuspendedWizard => suspended_wizard_step(c, cmd),
        State::Error => error_step(c, cmd),
        _ => step(State::Shutdown, crate::engine::Action::Nothing, FollowUp::Nothing, false),
    }
}

/// When the handler of `c.state` can act on `cmd` without failing.
pub open spec fn dispatch_allowed(c: &WtrCtl, cmd: Command, sector_enabled: bool) -> bool {
    &&& c.state != State::Starting
    &&& c.state == State::ManWait ==> c.manual_wait_allowed(cmd, sector_enabled)
    &&& c.state == State::StdWtrSector ==> (end_sector_queues_end(c, cmd) ==> c.active_ptrs.cycle is Some)
    &&& c.state == State::WzrWtrSector ==> (wzr_sector_ends(c, cmd) ==> c.active_ptrs.cycle is Some)
}

/// The state a step ends in, given whether errors are pending once its work
/// is done and, for a resume, whether a sector restarted.
pub open spec fn final_state(s: Step, has_errors: bool, resumed: bool) -> State {
    let next = if s.follow == FollowUp::AfterResume {
        if resumed { State::WzrWtrSector } else { State::WzrWtrCycle }
    } else {
        s.next
    };
    if s.check_errors && has_errors { State::Error } else { next }
}

/// What `complete` queues for a step.
pub open spec fn follow_up_commands(c: &WtrCtl, s: Step, resumed: bool) -> Seq<Command> {
    match s.follow {
        FollowUp::QueueAfterStart(p) | FollowUp::QueueAfterWizardStart(p) =>
            if c.active_ptrs.sec_id is Some { seq![Command::StartSector] } else { seq![Command::EndCycle(p)] },
        FollowUp::AfterResume => if resumed { seq![] } else { seq![Command::EndCycle(c.active_ptrs.cycle.unwrap())] },
        _ => seq![],
    }
}

/// The running pointers after the handler of `c.state` acted on `cmd`:
/// forcing a cycle or a sector in manual mode points at the direct cycle (and
/// the forced sector), and a cycle start while waiting points at that cycle
/// (or at none, on a conflict).
pub open spec fn dispatch_ptrs(c: &WtrCtl, cmd: Command, sector_enabled: bool) -> RunningPtr {
    if is_interrupt(cmd) {
        c.active_ptrs
    } else {
        match c.state {
            State::ManWait => match cmd {
                Command::ForceCycle(_) => RunningPtr { cycle: c.internal.direct, ..c.active_ptrs },
                Command::ForceSector(id) => if sector_enabled {
                    RunningPtr { cycle: c.internal.direct, sec_id: Some(id), ..c.active_ptrs }
                } else {
                    c.active_ptrs
                },
                _ => c.active_ptrs,
            },
            State::StdWait | State::WzrWait => match cmd {
                Command::StartCycle(p) => RunningPtr {
                    cycle: if c.active_ptrs.cycle is None { Some(p) } else { None },
                    ..c.active_ptrs
                },
                _ => c.active_ptrs,
            },
            _ => c.active_ptrs,
        }
    }
}

/// What the handler of `c.state` does to the control state, besides the
/// decision it gives: it marks the machine as changed, settles the mode (in
/// `EstablishMode`), moves the running pointers, queues the end of the cycle
/// when the last sector ended, and clears the suspension on a resume; the
/// rest stays as it was.
pub open spec fn dispatch_effect(c: &WtrCtl, d: &WtrCtl, cmd: Command, sector_enabled: bool) -> bool {
    &&& d.state == c.state
    &&& d.errors@ == c.errors@
    &&& d.changed == (c.changed || marks_changed(c.state, cmd, sector_enabled))
    &&& d.mode == (if c.state == State::EstablishMode && (cmd is ChangeMode || cmd is Start) {
        established_mode(c, cmd)
    } else {
        c.mode
    })
    &&& d.cmd_queue@ == (if (c.state == State::StdWtrSector && end_sector_queues_end(c, cmd))
        || (c.state == State::WzrWtrSector && wzr_sector_ends(c, cmd)) {
        c.cmd_queue@.push(Command::EndCycle(c.active_ptrs.cycle.unwrap()))
    } else {
        c.cmd_queue@
    })
    &&& d.active_ptrs == dispatch_ptrs(c, cmd, sector_enabled)
    &&& d.suspend_timeout == (if c.state == State::SuspendedWizard && !is_interrupt(cmd) && (cmd is Resume
        || cmd is ResumeTimeOut) {
        None
    } else {
        c.suspend_timeout
    })
    &&& d.in_alert == c.in_alert
    &&& d.internal == c.internal
    &&& ptr_list_items(d.std_ptrs) == ptr_list_items(c.std_ptrs)
    &&& d.wtr_secs@ == c.wtr_secs@
}

/// Whether the handler of `state` consumes the command, so that the states it
/// leads to in the same round see no command.
pub fn eats_command(state: State) -> (r: bool)
    ensures
        r == (state == State::EstablishMode || state == State::StdWtrCycle),
{
    matches!(state, State::EstablishMode | State::StdWtrCycle)
}

/// Clients hear about the machine when its state or its data changed.
pub fn should_notify(prev: State, next: State, changed: bool) -> (r: bool)
    ensures
        r == (prev != next || changed),
{
    prev != next || changed
}

/// The commands a pending list hands out when drained from its end.
pub open spec fn reversed(s: Seq<String>) -> Seq<String> {
    Seq::new(s.len(), |i: int| s[s.len() - 1 - i])
}

impl WtrCtl {
    /// Runs the handler of the current state on `cmd`.  `sector_enabled`
    /// tells whether the sector that `cmd` forces (if any) is enabled.
    pub fn dispatch(&mut self, cmd: &Command, time: CtrlTime, sector_enabled: bool) -> (s: Step)
        requires
            dispatch_allowed(old(self), *cmd, sector_enabled),
        ensures
            s == dispatch_step(old(self), *cmd, time, sector_enabled),
            dispatch_effect(old(self), final(self), *cmd, sector_enabled),
            final(self).state == old(self).state,
            final(self).errors@ == old(self).errors@,
    {
        match self.state {
            State::NoScheduleDef => self.no_schedule_def(cmd),
            State::EstablishMode => self.establish_mode(cmd),
            State::ManWait => self.manual_wait(cmd, time, sector_enabled),
            State::WzrWait => self.wizard_wait(cmd),
            State::StdWait => self.standard_wait(cmd),
            State::ManWtrCycle => self.manual_watering_cycle(cmd),
            State::StdWtrCycle => self.standard_watering_cycle(cmd),
            State::WzrWtrCycle => self.wizard_watering_cycle(cmd),
            State::ManWtrSector => self.manual_watering_sector(cmd),
            State::StdWtrSector => self.standard_watering_sector(cmd),
            State::WzrWtrSector => self.wizard_watering_sector(cmd),
            State::ManWtrSectorDirect => self.manual_watering_sector_direct(cmd),
            State::SuspendedWizard => self.suspended_wizard(cmd),
            State::Error => self.error(cmd),
            _ => Step {
                next: self.shut_down(),
                action: crate::engine::Action::Nothing,
                follow: FollowUp::Nothing,
                check_errors: false,
            },
        }
    }

    /// Finishes a step once its work was done: queues the commands that the
    /// outcome calls for, forgets the running cycle where the step says so,
    /// hands out the pending errors of the error state, and gives the state
    /// the machine goes to.
    pub fn complete(&mut self, s: Step, resumed: bool) -> (r: (State, Vec<String>))
        requires
            s.follow is QueueAfterWizardStart ==> old(self).active_ptrs.cycle is Some,
            (s.follow == FollowUp::AfterResume && !resumed) ==> old(self).active_ptrs.cycle is Some,
        ensures
            r.0 == final_state(s, old(self).has_errors(), resumed),
            final(self).cmd_queue@ == old(self).cmd_queue@ + follow_up_commands(old(self), s, resumed),
            s.follow == FollowUp::DrainErrors ==> {
                &&& r.1@ == reversed(old(self).errors@)
                &&& final(self).errors@ == Seq::<String>::empty()
            },
            s.follow != FollowUp::DrainErrors ==> {
                &&& r.1@ == Seq::<String>::empty()
                &&& final(self).errors@ == old(self).errors@
            },
            final(self).active_ptrs == (if s.follow == FollowUp::ResetAll || s.follow == FollowUp::DrainErrors {
                RunningPtr { cycle: None, sec_id: None, run_sec_ptr: None }
            } else {
                old(self).active_ptrs
            }),
            final(self).state == old(self).state,
            final(self).mode == old(self).mode,
            final(self).changed == old(self).changed,
            final(self).suspend_timeout == old(self).suspend_timeout,
            final(self).wtr_secs@ == old(self).wtr_secs@,
    {
        let ghost old_errors = self.errors@;
        let next = if s.check_errors { self.validate_errors(s.next) } else { s.next };
        let mut drained: Vec<String> = Vec::new();
        let next = match s.follow {
            FollowUp::QueueAfterStart(p) | FollowUp::QueueAfterWizardStart(p) => {
                if self.active_ptrs.sec_id.is_some() {
                    self.snd_command(Command::StartSector);
                } else {
                    self.snd_command(Command::EndCycle(p));
                }
                assert(follow_up_commands(old(self), s, resumed) =~= seq![
                    if old(self).active_ptrs.sec_id is Some { Command::StartSector } else { Command::EndCycle(p) }]);
                next
            },
            FollowUp::AfterResume => {
                if resumed {
                    assert(old(self).cmd_queue@ + follow_up_commands(old(self), s, resumed) =~= old(self).cmd_queue@);
                    if s.check_errors { self.validate_errors(State::WzrWtrSector) } else { State::WzrWtrSector }
                } else {
                    let c = self.active_ptrs.cycle.unwrap();
                    self.snd_command(Command::EndCycle(c));
                    if s.check_errors { self.validate_errors(State::WzrWtrCycle) } else { State::WzrWtrCycle }
                }
            },
            FollowUp::ResetAll => {
                self.active_ptrs.reset_all();
                assert(old(self).cmd_queue@ + follow_up_commands(old(self), s, resumed) =~= old(self).cmd_queue@);
                next
            },
            FollowUp::DrainErrors => {
                self.active_ptrs.reset_all();
                while self.errors.len() > 0
                    invariant
                        self.cmd_queue@ == old(self).cmd_queue@,
                        self.active_ptrs == (RunningPtr { cycle: None, sec_id: None, run_sec_ptr: None }),
                        self.state == old(self).state,
                        self.mode == old(self).mode,
                        self.changed == old(self).changed,
                        self.suspend_timeout == old(self).suspend_timeout,
                        self.wtr_secs@ == old(self).wtr_secs@,
                        old_errors == old(self).errors@,
                        self.errors@ == old_errors.take(self.errors@.len() as int),
                        self.errors@.len() <= old_errors.len(),
                        drained@ == reversed(old_errors).take(old_errors.len() - self.errors@.len()),
                    decreases self.errors@.len(),
                {
                    let e = self.errors.pop().unwrap();
                    drained.push(e);
                }
                assert(drained@ =~= reversed(old_errors));
                assert(old(self).cmd_queue@ + follow_up_commands(old(self), s, resumed) =~= old(self).cmd_queue@);
                next
            },
            FollowUp::Nothing => {
                assert(old(self).cmd_queue@ + follow_up_commands(old(self), s, resumed) =~= old(self).cmd_queue@);
                next
            },
        };
        (next, drained)
    }

    /// Turns the passage of time into commands, according to the state:
    /// a due standard or wizard cycle is started, the first queued sector is
    /// started when its start time came, the running sector is ended when its
    /// end time came, and a suspension ends when its timeout passed.
    ///
    /// `std_due[i]` tells whether the `i`-th standard cycle is due,
    /// `wizard` is the wizard cycle's position (the machine's own
    /// `internal.wizard`) and whether it is due,
    /// `front_due` whether the first queued sector's start time came, and
    /// `active_end_due` whether the running sector's end time came.
    pub fn process_time_tick(
        &mut self,
        time: CtrlTime,
        std_due: &[bool],
        wizard: Option<(CyclePtr, bool)>,
        front_due: bool,
        active_end_due: bool,
    )
        requires
            old(self).state == State::StdWait ==> std_due@.len() == ptr_list_items(old(self).std_ptrs).len(),
            old(self).state == State::WzrWait ==> (wizard matches Some((p, _)) && old(self).internal.wizard == Some(p)),
            (old(self).state == State::StdWtrSector || old(self).state == State::WzrWtrSector
                || old(self).state == State::ManWtrSector) ==> old(self).active_ptrs.run_sec_ptr is Some,
            old(self).state == State::SuspendedWizard ==> old(self).suspend_timeout is Some,
        ensures
            final(self).cmd_queue@ == old(self).cmd_queue@ + tick_commands(old(self), time, std_due@, wizard,
                front_due, active_end_due),
            final(self).active_ptrs == tick_active_ptrs(old(self), front_due),
            final(self).state == old(self).state,
            final(self).errors@ == old(self).errors@,
            final(self).wtr_secs@ == old(self).wtr_secs@,
    {
        match self.state {
            State::StdWait => {
                let ptrs = ptr_list_as_slice(&self.std_ptrs);
                let mut i: usize = 0;
                let mut found: Option<CyclePtr> = None;
                while i < ptrs.len()
                    invariant_except_break
                        found is None,
                    invariant
                        ptrs@ == ptr_list_items(self.std_ptrs),
                        std_due@.len() == ptrs@.len(),
                        i <= ptrs@.len(),
                        forall|j: int| 0 <= j < i ==> !std_due@[j],
                        self.state == old(self).state,
                        self.cmd_queue@ == old(self).cmd_queue@,
                        self.active_ptrs == old(self).active_ptrs,
                        self.errors@ == old(self).errors@,
                        self.wtr_secs@ == old(self).wtr_secs@,
                        self.std_ptrs == old(self).std_ptrs,
                    ensures
                        found is None ==> forall|j: int| 0 <= j < std_due@.len() ==> !std_due@[j],
                        found matches Some(p) ==> first_due(std_due@, ptrs@) == Some(p),
                    decreases ptrs.len() - i,
                {
                    if std_due[i] {
                        proof { lemma_first_due_at(std_due@, ptrs@, i as int); }
                        found = Some(ptrs[i].1);
                        break;
                    }
                    i = i + 1;
                }
                if found.is_none() {
                    proof { lemma_first_due_none(std_due@, ptrs@); }
                }
                if let Some(p) = found {
                    self.snd_command(Command::StartCycle(p));
                }
            },
            State::WzrWait => {
                let (p, due) = wizard.unwrap();
                if due {
                    self.snd_command(Command::StartCycle(p));
                }
            },
            State::WzrWtrCycle | State::StdWtrCycle | State::ManWtrCycle => {
                if self.wtr_secs.len() > 0 {
                    let (sec_id, sec_ptr) = self.wtr_secs[0];
                    if front_due {
                        self.active_ptrs = RunningPtr {
                            cycle: self.active_ptrs.cycle,
                            sec_id: Some(sec_id),
                            run_sec_ptr: Some(sec_ptr),
                        };
                        self.snd_command(Command::StartSector);
                    }
                }
            },
            State::StdWtrSector | State::WzrWtrSector | State::ManWtrSector => {
                if active_end_due {
                    let c = self.active_ptrs;
                    self.snd_command(Command::EndSector(c));
                }
            },
            State::SuspendedWizard => {
                if time.0 >= self.suspend_timeout.unwrap().0 {
                    self.snd_command(Command::ResumeTimeOut);
                }
            },
            _ => {},
        }
    }
}

/// The position of the first due standard cycle, if any.
pub open spec fn first_due(due: Seq<bool>, ptrs: Seq<(u32, u8)>) -> Option<CyclePtr>
    decreases due.len(),
{
    if due.len() == 0 || ptrs.len() == 0 {
        None
    } else if due[0] {
        Some(ptrs[0].1)
    } else {
        first_due(due.drop_first(), ptrs.drop_first())
    }
}

proof fn lemma_first_due_at(due: Seq<bool>, ptrs: Seq<(u32, u8)>, i: int)
    requires
        0 <= i < due.len(),
        due.len() == ptrs.len(),
        due[i],
        forall|j: int| 0 <= j < i ==> !due[j],
    ensures
        first_due(due, ptrs) == Some(ptrs[i].1),
    decreases i,
{
    if i > 0 {
        lemma_first_due_at(due.drop_first(), ptrs.drop_first(), i - 1);
    }
}

proof fn lemma_first_due_none(due: Seq<bool>, ptrs: Seq<(u32, u8)>)
    requires
        due.len() == ptrs.len(),
        forall|j: int| 0 <= j < due.len() ==> !due[j],
    ensures
        first_due(due, ptrs) is None,
    decreases due.len(),
{
    if due.len() > 0 {
        lemma_first_due_none(due.drop_first(), ptrs.drop_first());
    }
}

/// The commands that the passage of time queues (see `process_time_tick`).
pub open spec fn tick_commands(
    c: &WtrCtl,
    time: CtrlTime,
    std_due: Seq<bool>,
    wizard: Option<(CyclePtr, bool)>,
    front_due: bool,
    active_end_due: bool,
) -> Seq<Command> {
    match c.state {
        State::StdWait => match first_due(std_due, ptr_list_items(c.std_ptrs)) {
            Some(p) => seq![Command::StartCycle(p)],
            None => seq![],
        },
        State::WzrWait => if wizard.unwrap().1 { seq![Command::StartCycle(wizard.unwrap().0)] } else { seq![] },
        State::WzrWtrCycle | State::StdWtrCycle | State::ManWtrCycle =>
            if c.wtr_secs@.len() > 0 && front_due { seq![Command::StartSector] } else { seq![] },
        State::StdWtrSector | State::WzrWtrSector | State::ManWtrSector =>
            if active_end_due { seq![Command::EndSector(c.active_ptrs)] } else { seq![] },
        State::SuspendedWizard =>
            if time.0 >= c.suspend_timeout.unwrap().0 { seq![Command::ResumeTimeOut] } else { seq![] },
        _ => seq![],
    }
}

/// The running pointers after the passage of time: the first queued sector
/// becomes the running one when it is due to start.
pub open spec fn tick_active_ptrs(c: &WtrCtl, front_due: bool) -> RunningPtr {
    match c.state {
        State::WzrWtrCycle | State::StdWtrCycle | State::ManWtrCycle =>
            if c.wtr_secs@.len() > 0 && front_due {
                RunningPtr { cycle: c.active_ptrs.cycle, sec_id: Some(c.wtr_secs@[0].0), run_sec_ptr: Some(c.wtr_secs@[0].1) }
            } else {
                c.active_ptrs
            },
        _ => c.active_ptrs,
    }
}

} // verus!
