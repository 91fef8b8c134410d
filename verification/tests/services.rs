use lagarto_ctrl::broker::SubscriptionTable;
use lagarto_ctrl::cache::{CacheFx, CacheResult};
use lagarto_ctrl::client::{
    accepts_client_changes, is_machine_request, needs_daily_refresh, plan_cycle_sync, route_request, sync_changes_state,
    ClientRequest, CycleSyncAction, ErrorOutbox, NextEvent, RequestRoute,
};
use lagarto_ctrl::cycle::SyncOp;
use lagarto_ctrl::engine::WtrCtl;
use lagarto_ctrl::mqtt_link::{publish_options_for, Inbound, MqttLink, NEVER, QOS_0, QOS_1};
use lagarto_ctrl::rega::{Command, CtrlTime, Mode, RunningPtr, State};
use lagarto_ctrl::sector_queue::NANOS_PER_MINUTE;
use lagarto_ctrl::subscriber::Subscriber;

#[test]
fn cycle_start_queues_the_sectors_that_get_water() {
    let mut c = WtrCtl::new(State::StdWtrCycle, Mode::Standard);
    c.active_ptrs.cycle = Some(2);
    c.queue_cycle_sectors(false, &vec![0, 1, 2, 3], &vec![true, false, true, true]);
    let q: Vec<(u8, u8)> = c.wtr_secs.iter().copied().collect();
    assert_eq!(q, vec![(0, 0), (2, 2), (3, 3)]);
    assert_eq!(c.active_ptrs, RunningPtr { cycle: Some(2), sec_id: Some(0), run_sec_ptr: Some(0) });
}

#[test]
fn a_forced_sector_goes_first() {
    let mut c = WtrCtl::new(State::ManWait, Mode::Manual);
    c.active_ptrs = RunningPtr { cycle: Some(1), sec_id: Some(6), run_sec_ptr: None };
    assert_eq!(c.forced_sector(true), Some(6));
    assert_eq!(c.forced_sector(false), None);
    c.queue_cycle_sectors(true, &vec![6], &vec![false]);
    let q: Vec<(u8, u8)> = c.wtr_secs.iter().copied().collect();
    assert_eq!(q, vec![(6, 0)]);
    assert_eq!(c.active_ptrs, RunningPtr { cycle: Some(1), sec_id: Some(6), run_sec_ptr: Some(0) });
}

#[test]
fn a_cycle_with_no_sector_to_water_has_no_running_sector() {
    let mut c = WtrCtl::new(State::StdWtrCycle, Mode::Standard);
    c.active_ptrs = RunningPtr { cycle: Some(2), sec_id: Some(1), run_sec_ptr: Some(1) };
    c.queue_cycle_sectors(false, &vec![0, 1], &vec![false, false]);
    assert!(c.wtr_secs.is_empty());
    assert_eq!(c.active_ptrs, RunningPtr { cycle: Some(2), sec_id: None, run_sec_ptr: None });
}

#[test]
fn sectors_are_taken_from_the_queue_in_order() {
    let mut c = WtrCtl::new(State::StdWtrCycle, Mode::Standard);
    c.active_ptrs.cycle = Some(0);
    c.wtr_secs.push_back((4, 0));
    c.wtr_secs.push_back((5, 1));
    assert_eq!(c.take_sector(false), (4, 0));
    assert_eq!(c.take_sector(false), (5, 1));
    assert!(c.wtr_secs.is_empty());
    assert_eq!(c.take_sector(true), (5, 1));
    c.stop_sector_ptrs();
    assert_eq!(c.active_ptrs, RunningPtr { cycle: Some(0), sec_id: None, run_sec_ptr: None });
}

#[test]
fn suspend_then_resume_gives_back_the_running_sector() {
    let mut c = WtrCtl::new(State::WzrWtrSector, Mode::Wizard);
    c.active_ptrs = RunningPtr { cycle: Some(0), sec_id: Some(3), run_sec_ptr: Some(1) };
    c.wtr_secs.push_back((7, 2));
    let before = c.active_ptrs;
    assert!(c.has_active_sector());
    c.suspend_queue(CtrlTime(1000), 30);
    assert_eq!(c.suspend_timeout, Some(CtrlTime(1000 + 30 * NANOS_PER_MINUTE)));
    let q: Vec<(u8, u8)> = c.wtr_secs.iter().copied().collect();
    assert_eq!(q, vec![(3, 1), (7, 2)]);
    assert_eq!(c.resume_queue(), Some((3, 1)));
    assert_eq!(c.active_ptrs, before);
    let q: Vec<(u8, u8)> = c.wtr_secs.iter().copied().collect();
    assert_eq!(q, vec![(7, 2)]);
}

#[test]
fn suspend_without_a_running_sector_only_sets_the_timeout() {
    let mut c = WtrCtl::new(State::WzrWtrCycle, Mode::Wizard);
    c.active_ptrs.cycle = Some(0);
    c.suspend_queue(CtrlTime(5), 1);
    assert!(c.wtr_secs.is_empty());
    assert_eq!(c.suspend_timeout, Some(CtrlTime(5 + NANOS_PER_MINUTE)));
    assert_eq!(c.resume_queue(), None);
}

#[test]
fn stopping_a_cycle_skips_the_queued_sectors() {
    let mut c = WtrCtl::new(State::StdWtrCycle, Mode::Standard);
    c.active_ptrs = RunningPtr { cycle: Some(1), sec_id: Some(2), run_sec_ptr: Some(0) };
    c.wtr_secs.push_back((3, 1));
    c.wtr_secs.push_back((4, 2));
    let skipped = c.stop_cycle_queue();
    assert_eq!(skipped, vec![(3, 1), (4, 2)]);
    assert!(c.wtr_secs.is_empty());
    assert_eq!(c.active_ptrs, RunningPtr { cycle: None, sec_id: Some(2), run_sec_ptr: Some(0) });
}

#[test]
fn cache_reports_duplicates_and_evicts_the_oldest() {
    let mut cache = CacheFx::with_capacity(2);
    assert!(cache.is_empty());
    assert_eq!(cache.push("a"), CacheResult::Inserted);
    assert_eq!(cache.push("a"), CacheResult::Duplicate);
    assert_eq!(cache.push("b"), CacheResult::Inserted);
    assert_eq!(cache.len(), 2);
    assert_eq!(cache.push("c"), CacheResult::Inserted);
    assert_eq!(cache.len(), 2);
    assert!(!cache.contains("a"));
    assert!(cache.contains("b"));
    assert!(cache.contains("c"));
    cache.pop_oldest();
    assert!(!cache.contains("b"));
    assert_eq!(cache.len(), 1);
}

#[test]
fn broker_delivers_to_the_registered_subscribers_in_order() {
    let mut t = SubscriptionTable::new(3);
    assert!(!t.has_subscribers(1));
    assert!(!t.subscribe(1, Subscriber::Web, false));
    assert!(!t.has_subscribers(1));
    assert!(t.subscribe(1, Subscriber::Mqtt, true));
    assert!(t.subscribe(1, Subscriber::Dev, true));
    assert!(t.subscribe(2, Subscriber::Dev, true));
    assert_eq!(t.recipients(1), vec![Subscriber::Mqtt, Subscriber::Dev]);
    assert!(t.unsubscribe(1, Subscriber::Mqtt, true));
    assert!(!t.unsubscribe(1, Subscriber::Mqtt, true));
    assert_eq!(t.recipients(1), vec![Subscriber::Dev]);
    assert!(t.unsubscribe_all(Subscriber::Dev, true));
    assert!(!t.has_subscribers(1));
    assert!(!t.has_subscribers(2));
    assert!(!t.unsubscribe_all(Subscriber::Dev, true));
}

#[test]
fn broker_removes_one_subscription_at_a_time() {
    let mut t = SubscriptionTable::new(1);
    t.subscribe(0, Subscriber::Main, true);
    t.subscribe(0, Subscriber::Main, true);
    assert!(t.unsubscribe(0, Subscriber::Main, true));
    assert_eq!(t.recipients(0), vec![Subscriber::Main]);
    assert!(!t.unsubscribe(0, Subscriber::Main, false));
    assert_eq!(t.recipients(0), vec![Subscriber::Main]);
}

#[test]
fn subscriber_names() {
    assert_eq!(Subscriber::Mqtt.to_string(), "MQTT");
    assert_eq!(Subscriber::Dev.to_string(), "Dev");
    assert_eq!(Subscriber::Dev.code(), 4);
}

#[test]
fn mqtt_link_forwards_each_message_once() {
    let mut l = MqttLink::new();
    assert_eq!(l.on_message(false, false, "id-1", CtrlTime(10)), Inbound::Forward);
    assert_eq!(l.last_heart_beat_time, CtrlTime(10));
    assert_eq!(l.on_message(false, false, "id-1", CtrlTime(20)), Inbound::Duplicate);
    assert_eq!(l.last_heart_beat_time, CtrlTime(20));
    assert_eq!(l.on_message(true, false, "id-2", CtrlTime(30)), Inbound::Ignore);
    assert_eq!(l.last_heart_beat_time, CtrlTime(20));
    assert_eq!(l.on_message(true, true, "id-2", CtrlTime(40)), Inbound::Heartbeat);
    assert_eq!(l.last_heart_beat_time, CtrlTime(40));
    assert_eq!(l.on_message(false, false, "id-2", CtrlTime(50)), Inbound::Forward);
}

#[test]
fn mqtt_link_connection_states() {
    let mut l = MqttLink::new();
    assert!(!l.can_publish());
    l.set_connected(true);
    assert!(l.can_publish());
    l.on_connect();
    assert_eq!(l.check_start, CtrlTime(NEVER));
    assert!(l.on_connection_lost(CtrlTime(77)));
    assert!(!l.can_publish());
    assert_eq!(l.check_start, CtrlTime(77));
    l.set_connected(true);
    l.begin_connect();
    assert!(!l.can_publish());
    l.terminate();
    assert!(l.is_shutting_down);
    assert!(!l.on_connection_lost(CtrlTime(99)));
    assert_eq!(l.check_start, CtrlTime(77));
    assert_eq!(publish_options_for(true), (true, QOS_0));
    assert_eq!(publish_options_for(false), (false, QOS_1));
}

#[test]
fn client_requests_are_routed() {
    let p = RunningPtr { cycle: Some(1), sec_id: Some(3), run_sec_ptr: Some(0) };
    assert_eq!(route_request(&ClientRequest::StopCycle(9)), RequestRoute::Machine(Command::StopCycle(9)));
    assert_eq!(route_request(&ClientRequest::ForceCycle(9)), RequestRoute::Machine(Command::ForceCycle(9)));
    assert_eq!(route_request(&ClientRequest::StopSector(p)), RequestRoute::Machine(Command::StopSector(p)));
    assert_eq!(route_request(&ClientRequest::ForceSector(p)), RequestRoute::Machine(Command::ForceSector(3)));
    assert_eq!(
        route_request(&ClientRequest::ChangeMode(Mode::Wizard)),
        RequestRoute::Machine(Command::ChangeMode(Mode::Wizard))
    );
    assert_eq!(route_request(&ClientRequest::OtherCycle), RequestRoute::Nothing);
    assert_eq!(route_request(&ClientRequest::ShutDown), RequestRoute::ShutDown);
    assert_eq!(route_request(&ClientRequest::DbSync), RequestRoute::DbSync);
    assert_eq!(route_request(&ClientRequest::GetFullDb), RequestRoute::FullDb);
    assert_eq!(route_request(&ClientRequest::WeatherHistory), RequestRoute::WeatherHistory);
    assert!(is_machine_request(&route_request(&ClientRequest::StopCycle(1))));
    assert!(!is_machine_request(&route_request(&ClientRequest::Other)));
}

#[test]
fn client_cycle_changes_are_planned() {
    let t = CtrlTime(100);
    assert_eq!(plan_cycle_sync(SyncOp::I, true, NextEvent::At(CtrlTime(150)), t), CycleSyncAction::Add(CtrlTime(150)));
    assert_eq!(plan_cycle_sync(SyncOp::I, true, NextEvent::At(CtrlTime(100)), t), CycleSyncAction::Ignore);
    assert_eq!(plan_cycle_sync(SyncOp::I, true, NextEvent::NoEvent, t), CycleSyncAction::Ignore);
    assert_eq!(plan_cycle_sync(SyncOp::I, true, NextEvent::Invalid, t), CycleSyncAction::InvalidSchedule);
    assert_eq!(plan_cycle_sync(SyncOp::I, false, NextEvent::At(CtrlTime(150)), t), CycleSyncAction::Duplicated);
    assert_eq!(plan_cycle_sync(SyncOp::D, true, NextEvent::Invalid, t), CycleSyncAction::Delete);
    assert_eq!(plan_cycle_sync(SyncOp::U, false, NextEvent::NoEvent, t), CycleSyncAction::Update);
    assert!(accepts_client_changes(Mode::Manual));
    assert!(!accepts_client_changes(Mode::Wizard));
    assert!(sync_changes_state(false, true, false));
    assert!(!sync_changes_state(false, false, false));
    assert!(needs_daily_refresh(None, CtrlTime(5)));
    assert!(needs_daily_refresh(Some(CtrlTime(4)), CtrlTime(5)));
    assert!(!needs_daily_refresh(Some(CtrlTime(5)), CtrlTime(5)));
}

#[test]
fn client_errors_are_sent_newest_first() {
    let mut o = ErrorOutbox::new();
    o.add_error("a".to_string());
    o.add_error("b".to_string());
    o.add_error("c".to_string());
    assert_eq!(o.take_all(), vec!["c".to_string(), "b".to_string(), "a".to_string()]);
    assert!(o.errors.is_empty());
    assert!(o.take_all().is_empty());
}

#[test]
fn subscribing_and_unsubscribing_restores_the_list() {
    let mut t = SubscriptionTable::new(2);
    t.subscribe(0, Subscriber::Main, true);
    let before = t.recipients(0);
    t.subscribe(0, Subscriber::Web, true);
    t.unsubscribe(0, Subscriber::Web, true);
    assert_eq!(t.recipients(0), before);
}
