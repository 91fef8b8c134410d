//! Devices that the controller drives, and the commands they accept.
use vstd::prelude::*;

verus! {

/// What a client command addresses: one device, or a scene of several.
#[derive(Debug, Clone, Copy, PartialEq, Eq, Structural)]
pub enum ActuatorType {
    Actuator,
    Scene,
}

/// Kind of device: a relay, a roller shutter, or a trigger switch.
#[derive(Debug, Clone, Copy, PartialEq, Eq, Structural)]
pub enum DeviceType {
    Relay,
    Roller,
    TriggerSwitch,
}

/// A command for a device.  The codes are bit flags shared with the clients.
#[derive(Debug, Clone, Copy, PartialEq, Eq, Structural)]
pub enum ActuatorCommand {
    Nop,
    Off,
    On,
    Up,
    Stop,
    Down,
}

impl ActuatorType {
    pub open spec fn spec_code(self) -> u8 {
        match self {
            ActuatorType::Actuator => 0,
            ActuatorType::Scene => 1,
        }
    }

    pub fn code(&self) -> (c: u8)
        ensures
            c == self.spec_code(),
    {
        match self {
            ActuatorType::Actuator => 0,
            ActuatorType::Scene => 1,
        }
    }

    /// The type with code `value`, which must name one.
    pub fn from_unchecked(value: u8) -> (t: ActuatorType)
        requires
            value <= 1,
        ensures
            t.spec_code() == value,
    {
        if value == 0 { ActuatorType::Actuator } else { ActuatorType::Scene }
    }
}

impl DeviceType {
    pub open spec fn spec_code(self) -> u8 {
        match self {
            DeviceType::Relay => 0,
            DeviceType::Roller => 1,
            DeviceType::TriggerSwitch => 2,
        }
    }

    pub fn code(&self) -> (c: u8)
        ensures
            c == self.spec_code(),
    {
        match self {
            DeviceType::Relay => 0,
            DeviceType::Roller => 1,
            DeviceType::TriggerSwitch => 2,
        }
    }

    /// The type with code `value`, which must name one.
    pub fn from_unchecked(value: u8) -> (t: DeviceType)
        requires
            value <= 2,
        ensures
            t.spec_code() == value,
    {
        if value == 0 {
            DeviceType::Relay
        } else if value == 1 {
            DeviceType::Roller
        } else {
            DeviceType::TriggerSwitch
        }
    }
}

impl ActuatorCommand {
    pub open spec fn spec_code(self) -> u8 {
        match self {
            ActuatorCommand::Nop => 1,
            ActuatorCommand::Off => 2,
            ActuatorCommand::On => 4,
            ActuatorCommand::Up => 8,
            ActuatorCommand::Stop => 16,
            ActuatorCommand::Down => 32,
        }
    }

    pub fn code(&self) -> (c: u8)
        ensures
            c == self.spec_code(),
    {
        match self {
            ActuatorCommand::Nop => 1,
            ActuatorCommand::Off => 2,
            ActuatorCommand::On => 4,
            ActuatorCommand::Up => 8,
            ActuatorCommand::Stop => 16,
            ActuatorCommand::Down => 32,
        }
    }

    /// The command with code `value`, which must name one.
    pub fn from_unchecked(value: u8) -> (c: ActuatorCommand)
        requires
            value == 1 || value == 2 || value == 4 || value == 8 || value == 16 || value == 32,
        ensures
            c.spec_code() == value,
    {
        if value == 1 {
            ActuatorCommand::Nop
        } else if value == 2 {
            ActuatorCommand::Off
        } else if value == 4 {
            ActuatorCommand::On
        } else if value == 8 {
            ActuatorCommand::Up
        } else if value == 16 {
            ActuatorCommand::Stop
        } else {
            ActuatorCommand::Down
        }
    }

    pub open spec fn spec_name(self) -> Seq<char> {
        match self {
            ActuatorCommand::Nop => "None"@,
            ActuatorCommand::Off => "Off"@,
            ActuatorCommand::On => "On"@,
            ActuatorCommand::Up => "Up"@,
            ActuatorCommand::Stop => "Stop"@,
            ActuatorCommand::Down => "Down"@,
        }
    }

    /// The command's name, as shown in messages.
    pub fn to_string(&self) -> (s: String)
        ensures
            s@ == self.spec_name(),
    {
        match self {
            ActuatorCommand::Nop => String::from_str("None"),
            ActuatorCommand::Off => String::from_str("Off"),
            ActuatorCommand::On => String::from_str("On"),
            ActuatorCommand::Up => String::from_str("Up"),
            ActuatorCommand::Stop => String::from_str("Stop"),
            ActuatorCommand::Down => String::from_str("Down"),
        }
    }
}

/// A command from a client for a device or a scene; `status` carries the
/// answer.
#[derive(Debug, Clone)]
pub struct ActuatorData {
    pub id: u16,
    pub actuator_type: ActuatorType,
    pub cmd: ActuatorCommand,
    pub status: Option<String>,
}

impl ActuatorData {
    /// The answer to a device command: whether the device obeyed.
    pub fn set_result(&mut self, ok: bool)
        ensures
            final(self).id == old(self).id,
            final(self).actuator_type == old(self).actuator_type,
            final(self).cmd == old(self).cmd,
            final(self).status matches Some(s) && s@ == (if ok { "{\"result\":\"true\"}"@ } else {
                "{\"result\":\"false\"}"@
            }),
    {
        if ok {
            self.status = Some(String::from_str("{\"result\":\"true\"}"));
        } else {
            self.status = Some(String::from_str("{\"result\":\"false\"}"));
        }
    }
}

} // verus!
