//! What the controller does with the requests of its client applications:
//! which requests become commands of the watering machine, how a client's
//! changes to the cycles are applied, and the errors kept for the clients.
use vstd::prelude::*;
use crate::cycle::SyncOp;
use crate::rega::{Command, CtrlTime, CycleId, Mode, RunningPtr};

verus! {

/// A request of a client application, as read from its message.
#[derive(Debug, Clone, Copy, PartialEq, Eq, Structural)]
pub enum ClientRequest {
    /// A cycle message asking to stop that cycle.
    StopCycle(CycleId),
    /// A cycle message asking to run that cycle now.
    ForceCycle(CycleId),
    /// A cycle message with another topic.
    OtherCycle,
    /// A sector message asking to stop the sector the pointers name.
    StopSector(RunningPtr),
    /// A sector message asking to water the sector the pointers name.
    ForceSector(RunningPtr),
    /// A sector message with another topic.
    OtherSector,
    ChangeMode(Mode),
    ShutDown,
    WeatherHistory,
    DbSync,
    GetFullDb,
    /// Any other message (a connection message, or one handled elsewhere).
    Other,
}

/// Where a client request goes.
#[derive(Debug, Clone, Copy, PartialEq, Eq, Structural)]
pub enum RequestRoute {
    /// A command for the watering machine.
    Machine(Command),
    /// The shutdown of the controller.
    ShutDown,
    /// The weather history is sent to the client.
    WeatherHistory,
    /// The client's changes are applied.
    DbSync,
    /// The whole database is sent to the client.
    FullDb,
    Nothing,
}

/// The route of each request.
pub open spec fn request_route(req: ClientRequest) -> RequestRoute {
    match req {
        ClientRequest::StopCycle(id) => RequestRoute::Machine(Command::StopCycle(id)),
        ClientRequest::ForceCycle(id) => RequestRoute::Machine(Command::ForceCycle(id)),
        ClientRequest::StopSector(p) => RequestRoute::Machine(Command::StopSector(p)),
        ClientRequest::ForceSector(p) => RequestRoute::Machine(Command::ForceSector(p.sec_id.unwrap())),
        ClientRequest::ChangeMode(m) => RequestRoute::Machine(Command::ChangeMode(m)),
        ClientRequest::ShutDown => RequestRoute::ShutDown,
        ClientRequest::WeatherHistory => RequestRoute::WeatherHistory,
        ClientRequest::DbSync => RequestRoute::DbSync,
        ClientRequest::GetFullDb => RequestRoute::FullDb,
        _ => RequestRoute::Nothing,
    }
}

/// Routes a client request; a request to force a sector must name it.
pub fn route_request(req: &ClientRequest) -> (r: RequestRoute)
    requires
        req matches ClientRequest::ForceSector(p) ==> p.sec_id is Some,
    ensures
        r == request_route(*req),
{
    match *req {
        ClientRequest::StopCycle(id) => RequestRoute::Machine(Command::StopCycle(id)),
        ClientRequest::ForceCycle(id) => RequestRoute::Machine(Command::ForceCycle(id)),
        ClientRequest::StopSector(p) => RequestRoute::Machine(Command::StopSector(p)),
        ClientRequest::ForceSector(p) => RequestRoute::Machine(Command::ForceSector(p.sec_id.unwrap())),
        ClientRequest::ChangeMode(m) => RequestRoute::Machine(Command::ChangeMode(m)),
        ClientRequest::ShutDown => RequestRoute::ShutDown,
        ClientRequest::WeatherHistory => RequestRoute::WeatherHistory,
        ClientRequest::DbSync => RequestRoute::DbSync,
        ClientRequest::GetFullDb => RequestRoute::FullDb,
        _ => RequestRoute::Nothing,
    }
}

/// Whether the request gives the watering machine a command.
pub fn is_machine_request(route: &RequestRoute) -> (r: bool)
    ensures
        r == (*route is Machine),
{
    match route {
        RequestRoute::Machine(_) => true,
        _ => false,
    }
}

/// The next run of a cycle, as computed from its schedule.
#[derive(Debug, Clone, Copy, PartialEq, Eq, Structural)]
pub enum NextEvent {
    At(CtrlTime),
    /// The schedule has no further run.
    NoEvent,
    /// The schedule is not valid.
    Invalid,
}

/// What to do with one cycle that a client sent.
#[derive(Debug, Clone, Copy, PartialEq, Eq, Structural)]
pub enum CycleSyncAction {
    /// Add the new cycle, to run next at the given time.
    Add(CtrlTime),
    /// Tell the client the cycle already exists.
    Duplicated,
    /// Tell the client its schedule is not valid.
    InvalidSchedule,
    Delete,
    Update,
    /// Nothing: the new cycle has no run to come.
    Ignore,
}

/// The action for a cycle sent with operation `op`: a new cycle is added
/// when its next run is after `time`.
pub open spec fn cycle_sync_action(op: SyncOp, is_new: bool, next: NextEvent, time: CtrlTime) -> CycleSyncAction {
    match op {
        SyncOp::I => if !is_new {
            CycleSyncAction::Duplicated
        } else {
            match next {
                NextEvent::At(t) => if t.0 > time.0 { CycleSyncAction::Add(t) } else { CycleSyncAction::Ignore },
                NextEvent::NoEvent => CycleSyncAction::Ignore,
                NextEvent::Invalid => CycleSyncAction::InvalidSchedule,
            }
        },
        SyncOp::D => CycleSyncAction::Delete,
        SyncOp::U => CycleSyncAction::Update,
    }
}

/// See `cycle_sync_action`.
pub fn plan_cycle_sync(op: SyncOp, is_new: bool, next: NextEvent, time: CtrlTime) -> (a: CycleSyncAction)
    ensures
        a == cycle_sync_action(op, is_new, next, time),
{
    match op {
        SyncOp::I => {
            if !is_new {
                CycleSyncAction::Duplicated
            } else {
                match next {
                    NextEvent::At(t) => if t.0 > time.0 { CycleSyncAction::Add(t) } else { CycleSyncAction::Ignore },
                    NextEvent::NoEvent => CycleSyncAction::Ignore,
                    NextEvent::Invalid => CycleSyncAction::InvalidSchedule,
                }
            }
        },
        SyncOp::D => CycleSyncAction::Delete,
        SyncOp::U => CycleSyncAction::Update,
    }
}

/// The warning sent to a client that adds a cycle that already exists.
pub open spec fn duplicated_cycle_warning() -> Seq<char> {
    "The client sent a cycle that already exists."@
}

/// See `duplicated_cycle_warning`.
pub fn duplicated_cycle_message() -> (m: String)
    ensures
        m@ == duplicated_cycle_warning(),
{
    String::from_str("The client sent a cycle that already exists.")
}

/// Whether a client's changes reach the data: only in manual mode.
pub fn accepts_client_changes(mode: Mode) -> (r: bool)
    ensures
        r == (mode == Mode::Manual),
{
    mode.is_manual()
}

/// Whether the machine must re-read its state after a client's changes: a
/// cycle changed, a sector was sent, or the configuration was sent.
pub fn sync_changes_state(cycles_changed: bool, sectors_sent: bool, config_sent: bool) -> (r: bool)
    ensures
        r == (cycles_changed || sectors_sent || config_sent),
{
    cycles_changed || sectors_sent || config_sent
}

/// Whether the changes since the last sync are to be sent to the clients:
/// some sensor, cycle or sector changed, or the configuration did.
pub fn sync_has_changes(sensors_changed: usize, cycles_changed: usize, sectors_changed: usize, config_changed: bool)
    -> (r: bool)
    ensures
        r == (sensors_changed > 0 || cycles_changed > 0 || sectors_changed > 0 || config_changed),
{
    sensors_changed > 0 || cycles_changed > 0 || sectors_changed > 0 || config_changed
}

/// The daily weather data are read again on the first weather report of the
/// controller and whenever the day changed since they were read.
pub fn needs_daily_refresh(prev_day: Option<CtrlTime>, start_of_day: CtrlTime) -> (r: bool)
    ensures
        r == (match prev_day {
            Some(d) => d != start_of_day,
            None => true,
        }),
{
    match prev_day {
        Some(d) => d.0 != start_of_day.0,
        None => true,
    }
}

/// The error messages waiting to be sent to the clients.
pub struct ErrorOutbox {
    pub errors: Vec<String>,
}

/// The messages of `s` from the last to the first.
pub open spec fn newest_first(s: Seq<String>) -> Seq<String> {
    Seq::new(s.len(), |i: int| s[s.len() - 1 - i])
}

impl ErrorOutbox {
    pub fn new() -> (o: ErrorOutbox)
        ensures
            o.errors@ == Seq::<String>::empty(),
    {
        ErrorOutbox { errors: Vec::new() }
    }

    /// Keeps an error message for the clients.
    pub fn add_error(&mut self, err: String)
        ensures
            final(self).errors@ == old(self).errors@.push(err),
    {
        self.errors.push(err);
    }

    /// Takes every waiting message, the newest first, as they are sent.
    pub fn take_all(&mut self) -> (sent: Vec<String>)
        ensures
            sent@ == newest_first(old(self).errors@),
            final(self).errors@ == Seq::<String>::empty(),
    {
        let mut sent: Vec<String> = Vec::new();
        let ghost start = self.errors@;
        while self.errors.len() > 0
            invariant
                self.errors@ == start.subrange(0, self.errors@.len() as int),
                sent@ == newest_first(start).subrange(0, start.len() - self.errors@.len()),
                self.errors@.len() <= start.len(),
            decreases self.errors@.len(),
        {
            let msg = self.errors.pop().unwrap();
            sent.push(msg);
            proof {
                assert(sent@ =~= newest_first(start).subrange(0, start.len() - self.errors@.len()));
                assert(self.errors@ =~= start.subrange(0, self.errors@.len() as int));
            }
        }
        assert(sent@ =~= newest_first(start));
        sent
    }
}

/// Each client request goes where it belongs: asking to stop or run a
/// cycle, to stop a sector, or to change the mode becomes the same command
/// of the watering machine, with the same cycle, pointers or mode; forcing a
/// sector becomes the command to force the sector it names; shutting down,
/// the weather history, a sync of the client's changes and the whole
/// database have routes of their own; every other request goes nowhere.
pub proof fn law_request_routes(req: ClientRequest)
    ensures
        req matches ClientRequest::StopCycle(id) ==> request_route(req) == RequestRoute::Machine(Command::StopCycle(id)),
        req matches ClientRequest::ForceCycle(id) ==> request_route(req) == RequestRoute::Machine(
            Command::ForceCycle(id)),
        req matches ClientRequest::StopSector(p) ==> request_route(req) == RequestRoute::Machine(
            Command::StopSector(p)),
        req matches ClientRequest::ForceSector(p) ==> (p.sec_id matches Some(s) ==> request_route(req)
            == RequestRoute::Machine(Command::ForceSector(s))),
        req matches ClientRequest::ChangeMode(m) ==> request_route(req) == RequestRoute::Machine(
            Command::ChangeMode(m)),
        req == ClientRequest::ShutDown ==> request_route(req) == RequestRoute::ShutDown,
        req == ClientRequest::WeatherHistory ==> request_route(req) == RequestRoute::WeatherHistory,
        req == ClientRequest::DbSync ==> request_route(req) == RequestRoute::DbSync,
        req == ClientRequest::GetFullDb ==> request_route(req) == RequestRoute::FullDb,
        (req == ClientRequest::OtherCycle || req == ClientRequest::OtherSector || req == ClientRequest::Other)
            ==> request_route(req) == RequestRoute::Nothing,
{
}

/// What becomes of a cycle a client sent: a deleted one is deleted and an
/// updated one updated; an inserted one whose id is already stored is a
/// duplicate; a new one is added to run at its next event when that comes
/// after `time`, is ignored when it has no later event, and is reported when
/// its schedule is not valid.
pub proof fn law_cycle_sync_actions(op: SyncOp, is_new: bool, next: NextEvent, time: CtrlTime)
    ensures
        op == SyncOp::D ==> cycle_sync_action(op, is_new, next, time) == CycleSyncAction::Delete,
        op == SyncOp::U ==> cycle_sync_action(op, is_new, next, time) == CycleSyncAction::Update,
        op == SyncOp::I && !is_new ==> cycle_sync_action(op, is_new, next, time) == CycleSyncAction::Duplicated,
        op == SyncOp::I && is_new ==> (next matches NextEvent::At(t) ==> cycle_sync_action(op, is_new, next, time) == (
        if t.0 > time.0 {
            CycleSyncAction::Add(t)
        } else {
            CycleSyncAction::Ignore
        })),
        op == SyncOp::I && is_new && next == NextEvent::NoEvent ==> cycle_sync_action(op, is_new, next, time)
            == CycleSyncAction::Ignore,
        op == SyncOp::I && is_new && next == NextEvent::Invalid ==> cycle_sync_action(op, is_new, next, time)
            == CycleSyncAction::InvalidSchedule,
{
}

} // verus!
