//! The parts of the controller that receive internal messages.
use vstd::prelude::*;

verus! {

/// Maximum number of subscribers of one message type.
pub const MAX_SUBSCRIBERS: usize = 4;

#[derive(Debug, Clone, Copy, PartialEq, Eq, Hash, Structural)]
pub enum Subscriber {
    Main,
    Mqtt,
    Test,
    Web,
    Dev,
}

impl Subscriber {
    pub open spec fn spec_code(self) -> u8 {
        match self {
            Subscriber::Main => 0,
            Subscriber::Mqtt => 1,
            Subscriber::Test => 2,
            Subscriber::Web => 3,
            Subscriber::Dev => 4,
        }
    }

    pub fn code(&self) -> (c: u8)
        ensures
            c == self.spec_code(),
    {
        match self {
            Subscriber::Main => 0,
            Subscriber::Mqtt => 1,
            Subscriber::Test => 2,
            Subscriber::Web => 3,
            Subscriber::Dev => 4,
        }
    }

    pub open spec fn spec_name(self) -> Seq<char> {
        match self {
            Subscriber::Main => "Main"@,
            Subscriber::Mqtt => "MQTT"@,
            Subscriber::Test => "Test"@,
            Subscriber::Web => "Web"@,
            Subscriber::Dev => "Dev"@,
        }
    }

    /// The subscriber's name, as logged.
    pub fn to_string(&self) -> (s: &'static str)
        ensures
            s@ == self.spec_name(),
    {
        match *self {
            Subscriber::Main => "Main",
            Subscriber::Mqtt => "MQTT",
            Subscriber::Test => "Test",
            Subscriber::Web => "Web",
            Subscriber::Dev => "Dev",
        }
    }
}

} // verus!
