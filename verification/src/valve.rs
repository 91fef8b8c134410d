//! The valve interface of the first hardware generation, and what a valve
//! command's outcome means for a sector.
use vstd::prelude::*;
use crate::errors::SecErr;
use crate::valve_state::RelayState;
use crate::rega::{SectorId, WateringStatus};

verus! {

/// State of a valve.
#[allow(non_camel_case_types)]
#[derive(Debug, Clone, Copy, PartialEq, Eq, Structural)]
pub enum VALVE_STATE {
    OPEN,
    CLOSED,
    ERROR,
}

impl VALVE_STATE {
    pub open spec fn spec_code(self) -> i8 {
        match self {
            VALVE_STATE::OPEN => 1i8,
            VALVE_STATE::CLOSED => 0i8,
            VALVE_STATE::ERROR => -1i8,
        }
    }

    pub fn code(&self) -> (c: i8)
        ensures
            c == self.spec_code(),
    {
        match self {
            VALVE_STATE::OPEN => 1,
            VALVE_STATE::CLOSED => 0,
            VALVE_STATE::ERROR => -1,
        }
    }

    /// A valve is closed unless known otherwise.
    pub fn default_state() -> (s: VALVE_STATE)
        ensures
            s == VALVE_STATE::CLOSED,
    {
        VALVE_STATE::CLOSED
    }

    pub fn is_closed(&self) -> (r: bool)
        ensures
            r == (*self == VALVE_STATE::CLOSED),
    {
        *self == VALVE_STATE::CLOSED
    }

    pub fn is_error(&self) -> (r: bool)
        ensures
            r == (*self == VALVE_STATE::ERROR),
    {
        *self == VALVE_STATE::ERROR
    }

    pub fn is_open(&self) -> (r: bool)
        ensures
            r == (*self == VALVE_STATE::OPEN),
    {
        *self == VALVE_STATE::OPEN
    }

    pub fn is_error_or_open(&self) -> (r: bool)
        ensures
            r == (*self == VALVE_STATE::ERROR || *self == VALVE_STATE::OPEN),
    {
        *self == VALVE_STATE::ERROR || *self == VALVE_STATE::OPEN
    }

    pub fn is_error_or_closed(&self) -> (r: bool)
        ensures
            r == (*self == VALVE_STATE::ERROR || *self == VALVE_STATE::CLOSED),
    {
        *self == VALVE_STATE::ERROR || *self == VALVE_STATE::CLOSED
    }
}

/// The state of the valve of a sector; this hardware cannot be asked, so a
/// valve is taken to be closed.
pub fn valve_status(_sector_id: SectorId) -> (s: VALVE_STATE)
    ensures
        s == VALVE_STATE::CLOSED,
{
    VALVE_STATE::CLOSED
}

/// The state of a valve after it was asked to open, given whether the relay
/// obeyed.
pub open spec fn valve_on_state(switched: bool) -> RelayState {
    if switched { RelayState::Open } else { RelayState::Error }
}

/// The status a sector run takes after its valve was switched: `ok`, or an
/// error when the valve failed.
pub open spec fn run_status_of(failed: bool, ok: WateringStatus) -> WateringStatus {
    if failed { WateringStatus::Error } else { ok }
}

/// See `run_status_of`.
pub fn run_status_after(failed: bool, ok: WateringStatus) -> (s: WateringStatus)
    ensures
        s == run_status_of(failed, ok),
{
    if failed { WateringStatus::Error } else { ok }
}

/// What opening the valve of sector `sec_name` means, given whether the relay
/// obeyed: the valve is open, or in error with an error to report.
pub fn turn_on_sec(switched: bool, sec_name: String) -> (r: (RelayState, Option<SecErr>))
    ensures
        r.0 == valve_on_state(switched),
        switched ==> r.0 == RelayState::Open && r.1 is None,
        !switched ==> r.0 == RelayState::Error && (r.1 matches Some(SecErr::UnknownErrOpenValve { sec_name: n })
            && n == sec_name),
{
    if switched {
        (RelayState::Open, None)
    } else {
        (RelayState::Error, Some(SecErr::UnknownErrOpenValve { sec_name }))
    }
}

/// What closing the valve of sector `sec_name` means, given whether the relay
/// obeyed: the valve is closed, or in error.  The error reported is the one
/// of a valve that could not be opened.
pub fn turn_off_sec(switched: bool, sec_name: String) -> (r: (RelayState, Option<SecErr>))
    ensures
        switched ==> r.0 == RelayState::Closed && r.1 is None,
        !switched ==> r.0 == RelayState::Error && (r.1 matches Some(SecErr::UnknownErrOpenValve { sec_name: n })
            && n == sec_name),
{
    if switched {
        (RelayState::Closed, None)
    } else {
        (RelayState::Error, Some(SecErr::UnknownErrOpenValve { sec_name }))
    }
}

/// A sector whose valve is in error is disabled until someone enables it.
pub fn disable_if_not_ok(state: RelayState, enabled: bool) -> (r: bool)
    ensures
        r == (enabled && state != RelayState::Error),
{
    if state == RelayState::Error { false } else { enabled }
}

/// What the start-up check does with a sector's valve, from the state its
/// relay reports: an unreachable valve disables the sector, an open one is
/// closed, a closed one is left alone.
#[derive(Debug, Clone, Copy, PartialEq, Eq, Structural)]
pub enum StartupCheck {
    Keep,
    Disable,
    Close,
}

/// See `StartupCheck`.
pub fn startup_check(state: RelayState) -> (r: StartupCheck)
    ensures
        r == (match state {
            RelayState::Error => StartupCheck::Disable,
            RelayState::Open => StartupCheck::Close,
            RelayState::Closed => StartupCheck::Keep,
        }),
{
    match state {
        RelayState::Error => StartupCheck::Disable,
        RelayState::Open => StartupCheck::Close,
        RelayState::Closed => StartupCheck::Keep,
    }
}

/// Whether a sector stays enabled after the start-up check: a valve that had
/// to be closed and could not be is disabled too.
pub fn enabled_after_startup(check: StartupCheck, closed: bool, enabled: bool) -> (r: bool)
    ensures
        r == (match check {
            StartupCheck::Keep => enabled,
            StartupCheck::Disable => false,
            StartupCheck::Close => enabled && closed,
        }),
{
    match check {
        StartupCheck::Keep => enabled,
        StartupCheck::Disable => false,
        StartupCheck::Close => enabled && closed,
    }
}

/// A valve asked to open is open exactly when its relay obeyed, and in
/// error otherwise; a sector run whose valve failed is in error, and takes
/// the status meant for it otherwise.
pub proof fn law_valve_outcomes(switched: bool, failed: bool, ok: WateringStatus)
    ensures
        (valve_on_state(switched) == RelayState::Open) == switched,
        !switched ==> valve_on_state(switched) == RelayState::Error,
        failed ==> run_status_of(failed, ok) == WateringStatus::Error,
        !failed ==> run_status_of(failed, ok) == ok,
{
}

} // verus!
