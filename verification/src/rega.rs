//! Vocabulary of the watering machine: modes, states, watering statuses,
//! commands and the pointers to the running cycle and sector.
use vstd::prelude::*;

verus! {

/// Identifier of a watering cycle in the database.
pub type CycleId = u32;
/// Position of a cycle in the in-memory cycle list.
pub type CyclePtr = u8;
/// Identifier (and position) of a physical sector.
pub type SectorId = u8;
/// Position of a sector run in the list of sector runs of the current cycle.
pub type SectorPtr = u8;
/// Identifier of a relay device.
pub type DeviceId = u16;

/// A point in time, in nanoseconds since the Unix epoch.
#[derive(Debug, Clone, Copy, PartialEq, Eq, Structural)]
pub struct CtrlTime(pub u64);

/// Operating mode of the watering machine.
#[derive(Debug, Clone, Copy, PartialEq, Eq, Structural)]
pub enum Mode {
    Manual,
    Standard,
    Wizard,
}

impl Mode {
    pub fn is_manual(&self) -> (r: bool)
        ensures
            r == (*self == Mode::Manual),
    {
        matches!(self, Mode::Manual)
    }

    pub fn is_standard(&self) -> (r: bool)
        ensures
            r == (*self == Mode::Standard),
    {
        matches!(self, Mode::Standard)
    }

    pub fn is_wizard(&self) -> (r: bool)
        ensures
            r == (*self == Mode::Wizard),
    {
        matches!(self, Mode::Wizard)
    }
}

/// States of the watering machine.
#[derive(Debug, Clone, Copy, PartialEq, Eq, Structural)]
pub enum State {
    Starting,
    NoScheduleDef,
    EstablishMode,
    ManWait,
    WzrWait,
    StdWait,
    ManWtrCycle,
    StdWtrCycle,
    WzrWtrCycle,
    ManWtrSector,
    StdWtrSector,
    WzrWtrSector,
    ManWtrSectorDirect,
    SuspendedWizard,
    Error,
    Shutdown,
}

/// Status of a cycle run or of a sector run.
#[derive(Debug, Clone, Copy, PartialEq, Eq, Structural)]
pub enum WateringStatus {
    Waiting,
    Running,
    Suspended,
    NotExecuted,
    Terminated,
    Error,
    SuspendedTimeout,
}

/// Which cycle and sector are running, if any.
#[derive(Debug, Clone, Copy, PartialEq, Eq, Structural)]
pub struct RunningPtr {
    pub cycle: Option<CyclePtr>,
    pub sec_id: Option<SectorId>,
    pub run_sec_ptr: Option<SectorPtr>,
}

impl RunningPtr {
    pub fn new() -> (r: RunningPtr)
        ensures
            r == (RunningPtr { cycle: None, sec_id: None, run_sec_ptr: None }),
    {
        RunningPtr { cycle: None, sec_id: None, run_sec_ptr: None }
    }

    /// Forgets the running sector, keeping the cycle.
    pub fn reset_sec(&mut self)
        ensures
            *final(self) == (RunningPtr { cycle: old(self).cycle, sec_id: None, run_sec_ptr: None }),
    {
        self.sec_id = None;
        self.run_sec_ptr = None;
    }

    /// Forgets the running cycle and sector.
    pub fn reset_all(&mut self)
        ensures
            *final(self) == (RunningPtr { cycle: None, sec_id: None, run_sec_ptr: None }),
    {
        self.cycle = None;
        self.sec_id = None;
        self.run_sec_ptr = None;
    }
}

/// Positions of the internal cycles (the wizard cycle and the direct cycle)
/// in the cycle list, and whether standard cycles exist.
#[derive(Debug, Clone, Copy, PartialEq, Eq, Structural)]
pub struct InternalPtr {
    pub wizard: Option<CyclePtr>,
    pub direct: Option<CyclePtr>,
    pub have_standard: bool,
}

/// Commands handled by the watering machine.
#[derive(Debug, Clone, Copy, PartialEq, Eq, Structural)]
pub enum Command {
    Null,
    Start,
    ChangeMode(Mode),
    ChangeState,
    ShutDown,
    Error,
    ForceCycle(CycleId),
    ForceSector(SectorId),
    StartCycle(CyclePtr),
    StopCycle(CycleId),
    EndCycle(CyclePtr),
    StartSector,
    EndSector(RunningPtr),
    StopSector(RunningPtr),
    /// A weather alert, with the code of its type.
    Suspend(u8),
    Resume,
    ResumeTimeOut,
}

} // verus!
