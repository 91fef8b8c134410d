//! The decisions of the link to the MQTT broker: which incoming messages are
//! handed to the controller (each message once, by its identifier), when the
//! clients were last heard from, and the connection state that decides
//! whether messages are published and when to reconnect.  The client
//! library calls and the message parsing are the caller's part.
use vstd::prelude::*;
use crate::cache::{CacheFx, CacheResult, cache_after_push, law_stays_while_distinct_others_fit, push_all};
use crate::rega::CtrlTime;

verus! {

/// Number of message identifiers remembered to drop repeated messages.
pub const MAX_CACHE_SIZE: u8 = 100;
/// Quality of service of the connection status messages.
pub const QOS_1: i32 = 1;
/// Quality of service of every other message.
pub const QOS_0: i32 = 0;
/// A reconnection check time that never comes.
pub const NEVER: u64 = u64::MAX;

/// What becomes of an incoming message.
#[derive(Debug, Clone, Copy, PartialEq, Eq, Structural)]
pub enum Inbound {
    /// Handed to the controller.
    Forward,
    /// Already received: dropped with a warning.
    Duplicate,
    /// A client reported being online.
    Heartbeat,
    /// Nothing to do.
    Ignore,
}

/// The state of the link to the broker.
pub struct MqttLink {
    /// Identifiers of the messages received lately.
    pub msgs_cache: CacheFx,
    /// When a client was last heard from.
    pub last_heart_beat_time: CtrlTime,
    pub connected_to_broker: bool,
    pub is_shutting_down: bool,
    /// When to check the connection and reconnect.
    pub check_start: CtrlTime,
}

/// How a message is published: whether the broker retains it, and its
/// quality of service level.  A connection message is retained, with level
/// 0; any other message is not retained, with level 1.
pub open spec fn publish_options(is_connection_msg: bool) -> (bool, i32) {
    if is_connection_msg { (true, QOS_0) } else { (false, QOS_1) }
}

/// See `publish_options`.
pub fn publish_options_for(is_connection_msg: bool) -> (r: (bool, i32))
    ensures
        r == publish_options(is_connection_msg),
{
    if is_connection_msg { (true, QOS_0) } else { (false, QOS_1) }
}

impl MqttLink {
    pub open spec fn wf(&self) -> bool {
        &&& self.msgs_cache.wf()
        &&& self.msgs_cache.capacity == MAX_CACHE_SIZE
    }

    /// A link not yet connected, that has heard from no client.
    pub fn new() -> (l: MqttLink)
        ensures
            l.wf(),
            l.msgs_cache@ == Seq::<Seq<char>>::empty(),
            l.last_heart_beat_time == CtrlTime(0),
            !l.connected_to_broker,
            !l.is_shutting_down,
            l.check_start == CtrlTime(NEVER),
    {
        MqttLink {
            msgs_cache: CacheFx::with_capacity(MAX_CACHE_SIZE),
            last_heart_beat_time: CtrlTime(0),
            connected_to_broker: false,
            is_shutting_down: false,
            check_start: CtrlTime(NEVER),
        }
    }

    /// Handles a message received at `time` with identifier `uuid`.  A
    /// message that is not a client connection message is handed on unless
    /// its identifier was seen lately, and counts as a sign of life; a client
    /// connection message counts as one when the client is online.
    pub fn on_message(&mut self, is_client_connection: bool, online: bool, uuid: &str, time: CtrlTime) -> (r: Inbound)
        requires
            old(self).wf(),
        ensures
            final(self).wf(),
            r == message_outcome(old(self).msgs_cache@, is_client_connection, online, uuid@),
            !is_client_connection ==> {
                &&& final(self).msgs_cache@ == cache_after_push(old(self).msgs_cache@, MAX_CACHE_SIZE as nat, uuid@)
                &&& final(self).last_heart_beat_time == time
            },
            is_client_connection ==> {
                &&& final(self).msgs_cache@ == old(self).msgs_cache@
                &&& final(self).last_heart_beat_time == (if online { time } else { old(self).last_heart_beat_time })
            },
            final(self).connected_to_broker == old(self).connected_to_broker,
            final(self).is_shutting_down == old(self).is_shutting_down,
            final(self).check_start == old(self).check_start,
    {
        if !is_client_connection {
            let pushed = self.msgs_cache.push(uuid);
            self.last_heart_beat_time = time;
            match pushed {
                CacheResult::Duplicate => Inbound::Duplicate,
                CacheResult::Inserted => Inbound::Forward,
            }
        } else if online {
            self.last_heart_beat_time = time;
            Inbound::Heartbeat
        } else {
            Inbound::Ignore
        }
    }

    /// Whether a message to publish goes out now: only while connected.
    pub fn can_publish(&self) -> (r: bool)
        ensures
            r == self.connected_to_broker,
    {
        self.connected_to_broker
    }

    /// The outcome of a connection attempt, or a disconnection (`false`).
    pub fn set_connected(&mut self, flag: bool)
        ensures
            final(self).connected_to_broker == flag,
            final(self).is_shutting_down == old(self).is_shutting_down,
            final(self).check_start == old(self).check_start,
            final(self).msgs_cache == old(self).msgs_cache,
            final(self).last_heart_beat_time == old(self).last_heart_beat_time,
    {
        self.connected_to_broker = flag;
    }

    /// A connection attempt starts: the link counts as down until it succeeds.
    pub fn begin_connect(&mut self)
        ensures
            !final(self).connected_to_broker,
            final(self).is_shutting_down == old(self).is_shutting_down,
            final(self).check_start == old(self).check_start,
            final(self).msgs_cache == old(self).msgs_cache,
            final(self).last_heart_beat_time == old(self).last_heart_beat_time,
    {
        self.connected_to_broker = false;
    }

    /// Connected: no reconnection check is needed any more.
    pub fn on_connect(&mut self)
        ensures
            final(self).check_start == CtrlTime(NEVER),
            final(self).connected_to_broker == old(self).connected_to_broker,
            final(self).is_shutting_down == old(self).is_shutting_down,
            final(self).msgs_cache == old(self).msgs_cache,
            final(self).last_heart_beat_time == old(self).last_heart_beat_time,
    {
        self.check_start = CtrlTime(NEVER);
    }

    /// The connection was lost at `now`: unless the link is shutting down, a
    /// reconnection is checked from `now` on.  Tells whether that happened
    /// (the loss is then unexpected).
    pub fn on_connection_lost(&mut self, now: CtrlTime) -> (unexpected: bool)
        ensures
            unexpected == !old(self).is_shutting_down,
            !final(self).connected_to_broker,
            final(self).check_start == (if unexpected { now } else { old(self).check_start }),
            final(self).is_shutting_down == old(self).is_shutting_down,
            final(self).msgs_cache == old(self).msgs_cache,
            final(self).last_heart_beat_time == old(self).last_heart_beat_time,
    {
        self.connected_to_broker = false;
        if !self.is_shutting_down {
            self.check_start = now;
            true
        } else {
            false
        }
    }

    /// The link shuts down: no more publishing and no reconnection.
    pub fn terminate(&mut self)
        ensures
            !final(self).connected_to_broker,
            final(self).is_shutting_down,
            final(self).check_start == old(self).check_start,
            final(self).msgs_cache == old(self).msgs_cache,
            final(self).last_heart_beat_time == old(self).last_heart_beat_time,
    {
        self.connected_to_broker = false;
        self.is_shutting_down = true;
    }
}

/// A message received twice in a row is handed on at most once: after the
/// first, its identifier is in the cache, so the second is a duplicate.
pub proof fn law_repeated_message_is_dropped(v: Seq<Seq<char>>, uuid: Seq<char>)
    ensures
        cache_after_push(v, MAX_CACHE_SIZE as nat, uuid).contains(uuid),
{
    if !v.contains(uuid) {
        if v.len() < MAX_CACHE_SIZE as nat {
            assert(v.push(uuid)[v.len() as int] == uuid);
        } else {
            assert(v.drop_first().push(uuid)[v.drop_first().len() as int] == uuid);
        }
    }
}

/// What becomes of a message with identifier `uuid` when the cache holds
/// `v`.
pub open spec fn message_outcome(v: Seq<Seq<char>>, is_client_connection: bool, online: bool, uuid: Seq<char>)
    -> Inbound {
    if !is_client_connection {
        if v.contains(uuid) { Inbound::Duplicate } else { Inbound::Forward }
    } else if online {
        Inbound::Heartbeat
    } else {
        Inbound::Ignore
    }
}

/// A message delivered twice is handed on at most once.  The first delivery
/// is handed on exactly when its identifier is not in the cache; then, as
/// long as fewer distinct identifiers than the cache holds came in between
/// (`others`, in the order they came, each as often as it came), the second
/// delivery is a duplicate and is dropped.
pub proof fn law_repeated_message_dropped_within_capacity(v: Seq<Seq<char>>, uuid: Seq<char>,
    others: Seq<Seq<char>>, online: bool)
    requires
        v.len() <= MAX_CACHE_SIZE,
        v.no_duplicates(),
        others.to_set().len() < MAX_CACHE_SIZE,
    ensures
        message_outcome(v, false, online, uuid) == (if v.contains(uuid) {
            Inbound::Duplicate
        } else {
            Inbound::Forward
        }),
        !v.contains(uuid) ==> message_outcome(push_all(cache_after_push(v, MAX_CACHE_SIZE as nat, uuid),
            MAX_CACHE_SIZE as nat, others), false, online, uuid) == Inbound::Duplicate,
{
    if !v.contains(uuid) {
        law_stays_while_distinct_others_fit(v, MAX_CACHE_SIZE as nat, uuid, others);
    }
}

} // verus!
