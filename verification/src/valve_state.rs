use vstd::prelude::*;

verus! {

/// State of a watering relay (valve) as reported by the device.
/// `Open` means the sector is being watered.
#[derive(Debug, Clone, Copy, PartialEq, Eq, Structural)]
pub enum RelayState {
    Open,
    Closed,
    Error,
}

impl RelayState {
    /// The numeric code stored for the state: open 1, closed 0, error -1.
    pub open spec fn spec_code(self) -> i8 {
        match self {
            RelayState::Open => 1i8,
            RelayState::Closed => 0i8,
            RelayState::Error => -1i8,
        }
    }

    pub fn code(&self) -> (c: i8)
        ensures
            c == self.spec_code(),
    {
        match self {
            RelayState::Open => 1,
            RelayState::Closed => 0,
            RelayState::Error => -1,
        }
    }

    /// The state with the given code, if the code names one.
    pub fn try_from_code(code: i8) -> (r: Option<RelayState>)
        ensures
            r is Some <==> (code == 1 || code == 0 || code == -1),
            r matches Some(s) ==> s.spec_code() == code,
    {
        if code == 1 {
            Some(RelayState::Open)
        } else if code == 0 {
            Some(RelayState::Closed)
        } else if code == -1 {
            Some(RelayState::Error)
        } else {
            None
        }
    }

    /// The state a relay is assumed to be in before anything is known: closed.
    pub fn default_state() -> (r: RelayState)
        ensures
            r == RelayState::Closed,
    {
        RelayState::Closed
    }

    pub fn is_closed(&self) -> (r: bool)
        ensures
            r == (*self == RelayState::Closed),
    {
        *self == RelayState::Closed
    }

    pub fn is_error(&self) -> (r: bool)
        ensures
            r == (*self == RelayState::Error),
    {
        *self == RelayState::Error
    }

    pub fn is_open(&self) -> (r: bool)
        ensures
            r == (*self == RelayState::Open),
    {
        *self == RelayState::Open
    }

    pub fn is_error_or_open(&self) -> (r: bool)
        ensures
            r == (*self == RelayState::Error || *self == RelayState::Open),
    {
        *self == RelayState::Error || *self == RelayState::Open
    }

    pub fn is_error_or_closed(&self) -> (r: bool)
        ensures
            r == (*self == RelayState::Error || *self == RelayState::Closed),
    {
        *self == RelayState::Error || *self == RelayState::Closed
    }
}

} // verus!
