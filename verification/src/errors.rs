//! Errors of the watering machine, of the devices and of the message broker,
//! with the messages they are reported with.
use vstd::prelude::*;
use crate::rega::DeviceId;

verus! {

/// How the standard formatter shows a string in debug form (quoted and
/// escaped).
pub uninterp spec fn str_debug_repr(s: Seq<char>) -> Seq<char>;

/// `format!("{:?}", s)` for a string: its debug form.
#[verifier::external_body]
fn debug_repr(s: &str) -> (r: String)
    ensures
        r@ == str_debug_repr(s@),
{
    format!("{:?}", s)
}

/// Errors about watering cycles.
#[derive(Debug)]
pub enum CycleError {
    CantSetupWizardSchedule,
    CantSetupWizardCompensationSchedule,
    CantDeleteCycleSchedule(String),
    CantUpdateCycleSchedule(String),
}

impl CycleError {
    pub open spec fn spec_message(&self) -> Seq<char> {
        match self {
            CycleError::CantSetupWizardSchedule => "Error setting up wizard cycle schedule."@,
            CycleError::CantSetupWizardCompensationSchedule => "Error setting up wizard compensation cycle schedule."@,
            CycleError::CantDeleteCycleSchedule(s) => "Error deleting cycle schedule: "@ + s@,
            CycleError::CantUpdateCycleSchedule(s) => "Error updating cycle schedule: "@ + s@,
        }
    }

    pub fn message(&self) -> (m: String)
        ensures
            m@ == self.spec_message(),
    {
        match self {
            CycleError::CantSetupWizardSchedule => String::from_str("Error setting up wizard cycle schedule."),
            CycleError::CantSetupWizardCompensationSchedule => String::from_str(
                "Error setting up wizard compensation cycle schedule.",
            ),
            CycleError::CantDeleteCycleSchedule(s) => String::from_str("Error deleting cycle schedule: ").concat(
                s.as_str(),
            ),
            CycleError::CantUpdateCycleSchedule(s) => String::from_str("Error updating cycle schedule: ").concat(
                s.as_str(),
            ),
        }
    }
}

/// Errors about the valve of a sector.
#[derive(Debug)]
pub enum SecErr {
    UnknownErrCloseValve { sec_name: String },
    UnknownErrOpenValve { sec_name: String },
}

impl SecErr {
    pub open spec fn spec_message(&self) -> Seq<char> {
        match self {
            SecErr::UnknownErrCloseValve { sec_name } => "Unknown error closing valve for sector: "@
                + str_debug_repr(sec_name@),
            SecErr::UnknownErrOpenValve { sec_name } => "Unknown error openning valve for sector: "@
                + str_debug_repr(sec_name@),
        }
    }

    pub fn message(&self) -> (m: String)
        ensures
            m@ == self.spec_message(),
    {
        match self {
            SecErr::UnknownErrCloseValve { sec_name } => {
                let d = debug_repr(sec_name.as_str());
                String::from_str("Unknown error closing valve for sector: ").concat(d.as_str())
            },
            SecErr::UnknownErrOpenValve { sec_name } => {
                let d = debug_repr(sec_name.as_str());
                String::from_str("Unknown error openning valve for sector: ").concat(d.as_str())
            },
        }
    }
}

/// Errors of the message broker.
#[derive(Debug)]
pub enum BrokerError {
    IssueSendingMsg(String),
}

impl BrokerError {
    pub open spec fn spec_message(&self) -> Seq<char> {
        match self {
            BrokerError::IssueSendingMsg(s) => "Technical: Issue sending event msg: "@ + s@,
        }
    }

    pub fn message(&self) -> (m: String)
        ensures
            m@ == self.spec_message(),
    {
        match self {
            BrokerError::IssueSendingMsg(s) => String::from_str("Technical: Issue sending event msg: ").concat(
                s.as_str(),
            ),
        }
    }
}

/// Errors of the devices.  Their messages show fixed placeholders (`0`, `1`)
/// in place of the data they carry.
#[derive(Debug)]
pub enum DeviceError {
    CommandError(String, String),
    ProcessingResult(String, String),
    DeviceNotRegistered(DeviceId),
}

impl DeviceError {
    pub open spec fn spec_message(&self) -> Seq<char> {
        match self {
            DeviceError::CommandError(_, _) => "Error applying command on the relay. url: 0 error: 1"@,
            DeviceError::ProcessingResult(_, _) => "Issue processing url result: 0, with error: 1"@,
            DeviceError::DeviceNotRegistered(_) => "Device not in the DB: 0"@,
        }
    }

    pub fn message(&self) -> (m: String)
        ensures
            m@ == self.spec_message(),
    {
        match self {
            DeviceError::CommandError(_, _) => String::from_str("Error applying command on the relay. url: 0 error: 1"),
            DeviceError::ProcessingResult(_, _) => String::from_str("Issue processing url result: 0, with error: 1"),
            DeviceError::DeviceNotRegistered(_) => String::from_str("Device not in the DB: 0"),
        }
    }
}

} // verus!
