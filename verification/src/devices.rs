//! The devices known to the controller, the URLs that command them, and the
//! checks of their answers.
use vstd::prelude::*;
use crate::actuator::{ActuatorCommand, ActuatorData, ActuatorType, DeviceType};
use crate::valve_state::RelayState;

verus! {

/// A general device (relay, roller shutter, trigger switch).
#[derive(Debug, Clone)]
pub struct DeviceGen {
    pub id: u16,
    pub identifier: String,
    pub status: bool,
    pub ip: String,
    pub cmd_on: String,
    pub cmd_off: String,
    pub get_status: String,
    pub desc: String,
    pub cmd_up: String,
    pub cmd_stop: String,
    pub cmd_down: String,
    pub shutter_get_status: String,
    pub device_type: DeviceType,
}

/// A relay that opens the valve of a watering sector.
#[derive(Debug, Clone)]
pub struct DeviceLawn {
    pub id: u16,
    pub identifier: String,
    pub status: bool,
    pub ip: String,
    pub cmd_on: String,
    pub cmd_off: String,
    pub get_status: String,
}

/// The URL that sends the command path `path` to the device at `ip`.
pub open spec fn device_url(ip: Seq<char>, path: Seq<char>) -> Seq<char> {
    "http://"@ + ip + "/"@ + path
}

fn build_url(ip: &String, path: &String) -> (url: String)
    ensures
        url@ == device_url(ip@, path@),
{
    let url = String::from_str("http://").concat(ip.as_str()).concat("/").concat(path.as_str());
    url
}

impl DeviceGen {
    /// The URL of `cmd` for this device; empty for a command it has no URL for.
    pub open spec fn spec_cmd_url(&self, cmd: ActuatorCommand) -> Seq<char> {
        match cmd {
            ActuatorCommand::Off => device_url(self.ip@, self.cmd_off@),
            ActuatorCommand::On => device_url(self.ip@, self.cmd_on@),
            ActuatorCommand::Up => device_url(self.ip@, self.cmd_up@),
            ActuatorCommand::Stop => device_url(self.ip@, self.cmd_stop@),
            ActuatorCommand::Down => device_url(self.ip@, self.cmd_down@),
            ActuatorCommand::Nop => Seq::empty(),
        }
    }

    /// The URL of `cmd`: the device's address followed by that command's own
    /// path.
    pub fn get_cmd(&self, cmd: ActuatorCommand) -> (url: String)
        ensures
            url@ == self.spec_cmd_url(cmd),
            cmd == ActuatorCommand::Off ==> url@ == "http://"@ + self.ip@ + "/"@ + self.cmd_off@,
            cmd == ActuatorCommand::On ==> url@ == "http://"@ + self.ip@ + "/"@ + self.cmd_on@,
            cmd == ActuatorCommand::Up ==> url@ == "http://"@ + self.ip@ + "/"@ + self.cmd_up@,
            cmd == ActuatorCommand::Stop ==> url@ == "http://"@ + self.ip@ + "/"@ + self.cmd_stop@,
            cmd == ActuatorCommand::Down ==> url@ == "http://"@ + self.ip@ + "/"@ + self.cmd_down@,
            cmd == ActuatorCommand::Nop ==> url@ == Seq::<char>::empty(),
    {
        match cmd {
            ActuatorCommand::Off => build_url(&self.ip, &self.cmd_off),
            ActuatorCommand::On => build_url(&self.ip, &self.cmd_on),
            ActuatorCommand::Up => build_url(&self.ip, &self.cmd_up),
            ActuatorCommand::Stop => build_url(&self.ip, &self.cmd_stop),
            ActuatorCommand::Down => build_url(&self.ip, &self.cmd_down),
            ActuatorCommand::Nop => String::new(),
        }
    }
}

impl DeviceLawn {
    /// The URL of `cmd` for this valve relay; only on and off have one.
    pub open spec fn spec_cmd_url(&self, cmd: ActuatorCommand) -> Seq<char> {
        match cmd {
            ActuatorCommand::Off => device_url(self.ip@, self.cmd_off@),
            ActuatorCommand::On => device_url(self.ip@, self.cmd_on@),
            _ => Seq::empty(),
        }
    }

    /// The URL of `cmd`: the relay's address followed by the path that turns
    /// it on, or off; no other command has one.
    pub fn get_cmd(&self, cmd: ActuatorCommand) -> (url: String)
        ensures
            url@ == self.spec_cmd_url(cmd),
            cmd == ActuatorCommand::Off ==> url@ == "http://"@ + self.ip@ + "/"@ + self.cmd_off@,
            cmd == ActuatorCommand::On ==> url@ == "http://"@ + self.ip@ + "/"@ + self.cmd_on@,
            cmd != ActuatorCommand::Off && cmd != ActuatorCommand::On ==> url@ == Seq::<char>::empty(),
    {
        match cmd {
            ActuatorCommand::Off => build_url(&self.ip, &self.cmd_off),
            ActuatorCommand::On => build_url(&self.ip, &self.cmd_on),
            _ => String::new(),
        }
    }

    /// The URL that asks this valve relay for its status.
    pub fn status_url(&self) -> (url: String)
        ensures
            url@ == device_url(self.ip@, self.get_status@),
    {
        build_url(&self.ip, &self.get_status)
    }
}

/// Two URLs of one device are the same only for the same path.
proof fn lemma_device_url_injective(ip: Seq<char>, a: Seq<char>, b: Seq<char>)
    requires
        device_url(ip, a) == device_url(ip, b),
    ensures
        a == b,
{
    let n = ("http://"@ + ip + "/"@).len();
    assert(device_url(ip, a).subrange(n as int, device_url(ip, a).len() as int) =~= a);
    assert(device_url(ip, b).subrange(n as int, device_url(ip, b).len() as int) =~= b);
}

/// Each command of a general device is sent to its own path at the device's
/// address: on, off, up, stop and down to the paths of those commands, and
/// nothing for no command.  Commands with different paths get different URLs:
/// up and down differ whenever their paths do, and so do on and off.
pub proof fn law_device_gen_command_urls(d: DeviceGen)
    ensures
        d.spec_cmd_url(ActuatorCommand::On) == "http://"@ + d.ip@ + "/"@ + d.cmd_on@,
        d.spec_cmd_url(ActuatorCommand::Off) == "http://"@ + d.ip@ + "/"@ + d.cmd_off@,
        d.spec_cmd_url(ActuatorCommand::Up) == "http://"@ + d.ip@ + "/"@ + d.cmd_up@,
        d.spec_cmd_url(ActuatorCommand::Stop) == "http://"@ + d.ip@ + "/"@ + d.cmd_stop@,
        d.spec_cmd_url(ActuatorCommand::Down) == "http://"@ + d.ip@ + "/"@ + d.cmd_down@,
        d.spec_cmd_url(ActuatorCommand::Nop) == Seq::<char>::empty(),
        d.cmd_up@ != d.cmd_down@ ==> d.spec_cmd_url(ActuatorCommand::Up) != d.spec_cmd_url(ActuatorCommand::Down),
        d.cmd_on@ != d.cmd_off@ ==> d.spec_cmd_url(ActuatorCommand::On) != d.spec_cmd_url(ActuatorCommand::Off),
{
    if d.spec_cmd_url(ActuatorCommand::Up) == d.spec_cmd_url(ActuatorCommand::Down) {
        lemma_device_url_injective(d.ip@, d.cmd_up@, d.cmd_down@);
    }
    if d.spec_cmd_url(ActuatorCommand::On) == d.spec_cmd_url(ActuatorCommand::Off) {
        lemma_device_url_injective(d.ip@, d.cmd_on@, d.cmd_off@);
    }
}

/// A valve relay is opened through its on path and closed through its off
/// path, at its address; the two URLs differ whenever the paths do, and no
/// other command has a URL.
pub proof fn law_device_lawn_command_urls(d: DeviceLawn, cmd: ActuatorCommand)
    ensures
        d.spec_cmd_url(ActuatorCommand::On) == "http://"@ + d.ip@ + "/"@ + d.cmd_on@,
        d.spec_cmd_url(ActuatorCommand::Off) == "http://"@ + d.ip@ + "/"@ + d.cmd_off@,
        cmd != ActuatorCommand::On && cmd != ActuatorCommand::Off ==> d.spec_cmd_url(cmd) == Seq::<char>::empty(),
        d.cmd_on@ != d.cmd_off@ ==> d.spec_cmd_url(ActuatorCommand::On) != d.spec_cmd_url(ActuatorCommand::Off),
{
    if d.spec_cmd_url(ActuatorCommand::On) == d.spec_cmd_url(ActuatorCommand::Off) {
        lemma_device_url_injective(d.ip@, d.cmd_on@, d.cmd_off@);
    }
}

/// The status of one relay, as a device reports it.
#[derive(Debug, Clone)]
pub struct RelayStatus {
    pub ison: bool,
    pub has_timer: bool,
    pub timer_started: u64,
    pub timer_duration: u64,
    pub timer_remaining: u64,
    pub source: String,
}

impl RelayStatus {
    /// Whether the relay is where `cmd` should have put it: on after `On`,
    /// off after `Off`; no other command is answered by a relay.
    pub fn is_cmd_response_ok(&self, cmd: ActuatorCommand) -> (r: bool)
        ensures
            r == (match cmd {
                ActuatorCommand::On => self.ison,
                ActuatorCommand::Off => !self.ison,
                _ => false,
            }),
    {
        match cmd {
            ActuatorCommand::On => self.ison,
            ActuatorCommand::Off => !self.ison,
            _ => false,
        }
    }
}

/// Whether a roller shutter that reported `is_valid` accepted `cmd`: only
/// up, stop and down are roller commands.
pub fn roller_cmd_response_ok(is_valid: bool, cmd: ActuatorCommand) -> (r: bool)
    ensures
        r == ((cmd == ActuatorCommand::Up || cmd == ActuatorCommand::Stop || cmd == ActuatorCommand::Down) && is_valid),
{
    match cmd {
        ActuatorCommand::Up => is_valid,
        ActuatorCommand::Stop => is_valid,
        ActuatorCommand::Down => is_valid,
        _ => false,
    }
}

/// What a device answered to a command, once read.
#[derive(Debug, Clone, Copy, PartialEq, Eq, Structural)]
pub enum DeviceAnswer {
    /// A relay reported whether it is on.
    Relay { ison: bool },
    /// A roller shutter reported its status, valid or not.
    Roller { is_valid: bool },
    /// No answer came, or it was not in the form expected.
    Unreadable,
}

/// Whether a device of type `device_type` carried out `cmd`, from its
/// answer: a relay must be where the command put it, a roller shutter must
/// give a valid answer to a roller command, and a trigger switch is never
/// commanded this way.
pub open spec fn device_cmd_ok(device_type: DeviceType, answer: DeviceAnswer, cmd: ActuatorCommand) -> bool {
    match device_type {
        DeviceType::Relay => match answer {
            DeviceAnswer::Relay { ison } => match cmd {
                ActuatorCommand::On => ison,
                ActuatorCommand::Off => !ison,
                _ => false,
            },
            _ => false,
        },
        DeviceType::Roller => match answer {
            DeviceAnswer::Roller { is_valid } => (cmd == ActuatorCommand::Up || cmd == ActuatorCommand::Stop
                || cmd == ActuatorCommand::Down) && is_valid,
            _ => false,
        },
        DeviceType::TriggerSwitch => false,
    }
}

/// See `device_cmd_ok`.
pub fn device_cmd_outcome(device_type: DeviceType, answer: DeviceAnswer, cmd: ActuatorCommand) -> (r: bool)
    ensures
        r == device_cmd_ok(device_type, answer, cmd),
{
    match device_type {
        DeviceType::Relay => match answer {
            DeviceAnswer::Relay { ison } => {
                let status = RelayStatus {
                    ison,
                    has_timer: false,
                    timer_started: 0,
                    timer_duration: 0,
                    timer_remaining: 0,
                    source: String::new(),
                };
                status.is_cmd_response_ok(cmd)
            },
            _ => false,
        },
        DeviceType::Roller => match answer {
            DeviceAnswer::Roller { is_valid } => roller_cmd_response_ok(is_valid, cmd),
            _ => false,
        },
        DeviceType::TriggerSwitch => false,
    }
}

/// The state of a valve relay from its status answer: open when it is on,
/// closed when it is off, in error when the answer could not be read.
pub fn relay_state_from_answer(ison: Option<bool>) -> (r: RelayState)
    ensures
        r == (match ison {
            Some(true) => RelayState::Open,
            Some(false) => RelayState::Closed,
            None => RelayState::Error,
        }),
{
    match ison {
        Some(true) => RelayState::Open,
        Some(false) => RelayState::Closed,
        None => RelayState::Error,
    }
}

/// A scene: a named group of devices commanded together.
#[derive(Debug, Clone)]
pub struct Scene {
    pub id: u16,
    pub desc: String,
    pub devices: Vec<u16>,
}

/// The devices and scenes offered to the clients.
#[derive(Debug, Clone)]
pub struct DevicesAndScenesData {
    pub devices: Vec<DeviceGen>,
    pub scenes: Vec<Scene>,
}

impl DevicesAndScenesData {
    pub fn new() -> (d: DevicesAndScenesData)
        ensures
            d.devices@.len() == 0,
            d.scenes@.len() == 0,
    {
        DevicesAndScenesData { devices: Vec::new(), scenes: Vec::new() }
    }
}

/// Position in the general device list of the device `id`: the valve relays
/// come first and are not in that list.
pub fn gen_device_pos(id: u16, nr_of_water_devices: u16) -> (p: usize)
    requires
        id >= nr_of_water_devices,
    ensures
        p == id - nr_of_water_devices,
{
    (id - nr_of_water_devices) as usize
}

/// How a scene command is carried out.
#[derive(Debug, Clone)]
pub enum ScenePlan {
    /// Scene 0 (the big entrance door): one device command.
    Single(ActuatorData),
    /// Scenes 1 to 5 (groups of shutters): one command per device, in order.
    Sequence(Vec<ActuatorData>),
    /// A scene the controller does not know.
    Unknown,
}

/// The command for device `id` that a scene command `cmd` stands for.
pub open spec fn device_command(id: u16, cmd: ActuatorCommand, d: ActuatorData) -> bool {
    &&& d.id == id
    &&& d.actuator_type == ActuatorType::Actuator
    &&& d.cmd == cmd
    &&& d.status is None
}

/// Whether the scene `id` can be planned with `data`: the scenes it names
/// (scene 0 with a device, or scenes 1 to 5) must exist.
pub open spec fn scene_plannable(data: &DevicesAndScenesData, id: u16) -> bool {
    &&& id == 0 ==> data.scenes@.len() > 0 && data.scenes@[0].devices@.len() > 0
    &&& 1 <= id <= 5 ==> id < data.scenes@.len()
}

/// Plans the scene command `actuator_data`.
pub fn plan_scene(data: &DevicesAndScenesData, actuator_data: &ActuatorData) -> (p: ScenePlan)
    requires
        scene_plannable(data, actuator_data.id),
    ensures
        actuator_data.id == 0 ==> (p matches ScenePlan::Single(d) && device_command(
            data.scenes@[0].devices@[0], actuator_data.cmd, d)),
        1 <= actuator_data.id <= 5 ==> (p matches ScenePlan::Sequence(v) && v@.len()
            == data.scenes@[actuator_data.id as int].devices@.len() && forall|i: int| 0 <= i < v@.len()
            ==> #[trigger] device_command(data.scenes@[actuator_data.id as int].devices@[i], actuator_data.cmd, v@[i])),
        actuator_data.id > 5 ==> p is Unknown,
{
    let id = actuator_data.id;
    if id == 0 {
        let dev = data.scenes[0].devices[0];
        ScenePlan::Single(ActuatorData {
            id: dev,
            actuator_type: ActuatorType::Actuator,
            cmd: actuator_data.cmd,
            status: None,
        })
    } else if id <= 5 {
        let devs = &data.scenes[id as usize].devices;
        let mut v: Vec<ActuatorData> = Vec::new();
        let mut i: usize = 0;
        while i < devs.len()
            invariant
                i <= devs@.len(),
                v@.len() == i,
                forall|j: int| 0 <= j < i ==> #[trigger] device_command(devs@[j], actuator_data.cmd, v@[j]),
            decreases devs.len() - i,
        {
            v.push(ActuatorData {
                id: devs[i],
                actuator_type: ActuatorType::Actuator,
                cmd: actuator_data.cmd,
                status: None,
            });
            i = i + 1;
        }
        ScenePlan::Sequence(v)
    } else {
        ScenePlan::Unknown
    }
}

/// Roller shutters moving up or down draw much current: the next device of a
/// scene waits until the previous one has nearly finished.
pub fn needs_pause_between_devices(cmd: ActuatorCommand) -> (r: bool)
    ensures
        r == (cmd == ActuatorCommand::Up || cmd == ActuatorCommand::Down),
{
    cmd == ActuatorCommand::Up || cmd == ActuatorCommand::Down
}

/// The outcome of a scene of several devices, from the outcomes of its device
/// commands: the outcomes are folded with `&` into `false`, so the result is
/// always `false`.
pub fn sequence_outcome(device_results: &Vec<bool>) -> (r: bool)
    ensures
        r == false,
{
    let mut result = false;
    let mut i: usize = 0;
    while i < device_results.len()
        invariant
            !result,
            i <= device_results@.len(),
        decreases device_results.len() - i,
    {
        result = result && device_results[i];
        i = i + 1;
    }
    result
}

/// A device carried out a command when its answer shows it: a relay turned
/// on reports being on, a relay turned off reports being off; a roller
/// shutter gives a valid answer to up, stop and down; an answer of the wrong
/// kind, an unreadable one, any other command and a trigger switch never
/// count as done.
pub proof fn law_device_answers(device_type: DeviceType, answer: DeviceAnswer, cmd: ActuatorCommand)
    ensures
        device_type == DeviceType::Relay && cmd == ActuatorCommand::On ==> device_cmd_ok(device_type, answer, cmd)
            == (answer == DeviceAnswer::Relay { ison: true }),
        device_type == DeviceType::Relay && cmd == ActuatorCommand::Off ==> device_cmd_ok(device_type, answer, cmd)
            == (answer == DeviceAnswer::Relay { ison: false }),
        device_type == DeviceType::Relay && cmd != ActuatorCommand::On && cmd != ActuatorCommand::Off
            ==> !device_cmd_ok(device_type, answer, cmd),
        device_type == DeviceType::Roller && (cmd == ActuatorCommand::Up || cmd == ActuatorCommand::Stop
            || cmd == ActuatorCommand::Down) ==> device_cmd_ok(device_type, answer, cmd) == (answer
            == DeviceAnswer::Roller { is_valid: true }),
        device_type == DeviceType::Roller && !(cmd == ActuatorCommand::Up || cmd == ActuatorCommand::Stop
            || cmd == ActuatorCommand::Down) ==> !device_cmd_ok(device_type, answer, cmd),
        device_type == DeviceType::TriggerSwitch ==> !device_cmd_ok(device_type, answer, cmd),
        answer == DeviceAnswer::Unreadable ==> !device_cmd_ok(device_type, answer, cmd),
{
}

} // verus!
