use lagarto_ctrl::actuator::{ActuatorCommand, ActuatorData, ActuatorType, DeviceType};
use lagarto_ctrl::db_maint::{
    adjust_stale_start, adjust_time_for_delay, is_running_for_first_time, is_time_to_run_mnt, large_mnt_start,
    maintenance_to_run, DbMaintCfg, Maintenance, DB_MAINT_START_DELAY,
};
use lagarto_ctrl::client::NextEvent;
use lagarto_ctrl::cycle::NR_NANOS_IN_A_DAY;
use lagarto_ctrl::devices::{
    device_cmd_outcome, gen_device_pos, needs_pause_between_devices, plan_scene, relay_state_from_answer,
    roller_cmd_response_ok, sequence_outcome, DeviceAnswer, DeviceGen, DeviceLawn, DevicesAndScenesData, RelayStatus,
    Scene, ScenePlan,
};
use lagarto_ctrl::errors::{BrokerError, CycleError, DeviceError, SecErr};
use lagarto_ctrl::rega::CtrlTime;
use lagarto_ctrl::stress::rain_since;
use lagarto_ctrl::valve::{
    disable_if_not_ok, enabled_after_startup, startup_check, turn_off_sec, turn_on_sec, valve_status, StartupCheck,
    VALVE_STATE,
};
use lagarto_ctrl::valve_state::RelayState;

fn gen_device(id: u16, device_type: DeviceType) -> DeviceGen {
    DeviceGen {
        id,
        identifier: "shelly1".to_string(),
        status: false,
        ip: "10.0.0.7".to_string(),
        cmd_on: "relay/0?turn=on".to_string(),
        cmd_off: "relay/0?turn=off".to_string(),
        get_status: "status".to_string(),
        desc: "Luz".to_string(),
        cmd_up: "roller/0?go=open".to_string(),
        cmd_stop: "roller/0?go=stop".to_string(),
        cmd_down: "roller/0?go=close".to_string(),
        shutter_get_status: "roller/0".to_string(),
        device_type,
    }
}

#[test]
fn device_urls() {
    let d = gen_device(10, DeviceType::Roller);
    assert_eq!(d.get_cmd(ActuatorCommand::On), "http://10.0.0.7/relay/0?turn=on");
    assert_eq!(d.get_cmd(ActuatorCommand::Down), "http://10.0.0.7/roller/0?go=close");
    assert_eq!(d.get_cmd(ActuatorCommand::Nop), "");
    let l = DeviceLawn {
        id: 0,
        identifier: "s0".to_string(),
        status: false,
        ip: "192.168.1.20".to_string(),
        cmd_on: "relay/0?turn=on".to_string(),
        cmd_off: "relay/0?turn=off".to_string(),
        get_status: "relay/0".to_string(),
    };
    assert_eq!(l.get_cmd(ActuatorCommand::Off), "http://192.168.1.20/relay/0?turn=off");
    assert_eq!(l.get_cmd(ActuatorCommand::Up), "");
    assert_eq!(l.status_url(), "http://192.168.1.20/relay/0");
}

#[test]
fn device_answers() {
    let r = RelayStatus {
        ison: true,
        has_timer: false,
        timer_started: 0,
        timer_duration: 0,
        timer_remaining: 0,
        source: "http".to_string(),
    };
    assert!(r.is_cmd_response_ok(ActuatorCommand::On));
    assert!(!r.is_cmd_response_ok(ActuatorCommand::Off));
    assert!(!r.is_cmd_response_ok(ActuatorCommand::Up));
    assert!(roller_cmd_response_ok(true, ActuatorCommand::Stop));
    assert!(!roller_cmd_response_ok(true, ActuatorCommand::On));
    assert!(!roller_cmd_response_ok(false, ActuatorCommand::Up));
    assert!(device_cmd_outcome(DeviceType::Relay, DeviceAnswer::Relay { ison: false }, ActuatorCommand::Off));
    assert!(!device_cmd_outcome(DeviceType::Relay, DeviceAnswer::Relay { ison: false }, ActuatorCommand::On));
    assert!(!device_cmd_outcome(DeviceType::Relay, DeviceAnswer::Unreadable, ActuatorCommand::On));
    assert!(device_cmd_outcome(DeviceType::Roller, DeviceAnswer::Roller { is_valid: true }, ActuatorCommand::Up));
    assert!(!device_cmd_outcome(DeviceType::Roller, DeviceAnswer::Relay { ison: true }, ActuatorCommand::Up));
    assert!(!device_cmd_outcome(DeviceType::TriggerSwitch, DeviceAnswer::Relay { ison: true }, ActuatorCommand::On));
    assert_eq!(relay_state_from_answer(Some(true)), RelayState::Open);
    assert_eq!(relay_state_from_answer(Some(false)), RelayState::Closed);
    assert_eq!(relay_state_from_answer(None), RelayState::Error);
}

#[test]
fn scenes_are_planned_device_by_device() {
    let mut data = DevicesAndScenesData::new();
    data.devices.push(gen_device(10, DeviceType::Relay));
    data.scenes.push(Scene { id: 0, desc: "Portao".to_string(), devices: vec![10] });
    data.scenes.push(Scene { id: 1, desc: "Estores".to_string(), devices: vec![11, 12] });
    let cmd0 = ActuatorData { id: 0, actuator_type: ActuatorType::Scene, cmd: ActuatorCommand::On, status: None };
    match plan_scene(&data, &cmd0) {
        ScenePlan::Single(d) => {
            assert_eq!(d.id, 10);
            assert_eq!(d.actuator_type, ActuatorType::Actuator);
            assert_eq!(d.cmd, ActuatorCommand::On);
        },
        other => panic!("unexpected plan {:?}", other),
    }
    let cmd1 = ActuatorData { id: 1, actuator_type: ActuatorType::Scene, cmd: ActuatorCommand::Down, status: None };
    match plan_scene(&data, &cmd1) {
        ScenePlan::Sequence(v) => {
            let ids: Vec<u16> = v.iter().map(|d| d.id).collect();
            assert_eq!(ids, vec![11, 12]);
            assert!(v.iter().all(|d| d.cmd == ActuatorCommand::Down && d.status.is_none()));
        },
        other => panic!("unexpected plan {:?}", other),
    }
    let cmd9 = ActuatorData { id: 9, actuator_type: ActuatorType::Scene, cmd: ActuatorCommand::Up, status: None };
    assert!(matches!(plan_scene(&data, &cmd9), ScenePlan::Unknown));
    assert!(needs_pause_between_devices(ActuatorCommand::Up));
    assert!(!needs_pause_between_devices(ActuatorCommand::Stop));
    assert!(!sequence_outcome(&vec![true, true]));
    assert_eq!(gen_device_pos(12, 10), 2);
}

#[test]
fn actuator_answers_and_names() {
    let mut d = ActuatorData { id: 3, actuator_type: ActuatorType::Actuator, cmd: ActuatorCommand::On, status: None };
    d.set_result(true);
    assert_eq!(d.status.as_deref(), Some(r#"{"result":"true"}"#));
    d.set_result(false);
    assert_eq!(d.status.as_deref(), Some(r#"{"result":"false"}"#));
    assert_eq!(ActuatorCommand::Nop.to_string(), "None");
    assert_eq!(ActuatorCommand::Down.to_string(), "Down");
    assert_eq!(ActuatorCommand::Stop.code(), 16);
    assert_eq!(ActuatorCommand::from_unchecked(8), ActuatorCommand::Up);
    assert_eq!(ActuatorType::Scene.code(), 1);
}

#[test]
fn relay_and_valve_states() {
    assert_eq!(RelayState::default_state(), RelayState::Closed);
    assert_eq!(RelayState::try_from_code(1), Some(RelayState::Open));
    assert_eq!(RelayState::try_from_code(-1), Some(RelayState::Error));
    assert_eq!(RelayState::try_from_code(2), None);
    assert_eq!(RelayState::Error.code(), -1);
    assert!(RelayState::Error.is_error_or_open());
    assert!(RelayState::Closed.is_error_or_closed());
    assert!(!RelayState::Open.is_closed());
    assert_eq!(VALVE_STATE::default_state(), VALVE_STATE::CLOSED);
    assert_eq!(valve_status(3), VALVE_STATE::CLOSED);
    assert!(VALVE_STATE::OPEN.is_open());
    assert!(VALVE_STATE::ERROR.is_error_or_closed());
}

#[test]
fn valve_switching_outcomes() {
    let (s, e) = turn_on_sec(true, "relva".to_string());
    assert_eq!(s, RelayState::Open);
    assert!(e.is_none());
    let (s, e) = turn_off_sec(false, "relva".to_string());
    assert_eq!(s, RelayState::Error);
    assert_eq!(e.unwrap().message(), "Unknown error openning valve for sector: \"relva\"");
    assert!(!disable_if_not_ok(RelayState::Error, true));
    assert!(disable_if_not_ok(RelayState::Closed, true));
    assert!(!disable_if_not_ok(RelayState::Open, false));
}

#[test]
fn error_messages() {
    assert_eq!(CycleError::CantDeleteCycleSchedule("7".to_string()).message(), "Error deleting cycle schedule: 7");
    assert_eq!(CycleError::CantSetupWizardSchedule.message(), "Error setting up wizard cycle schedule.");
    assert_eq!(
        SecErr::UnknownErrCloseValve { sec_name: "a\"b".to_string() }.message(),
        "Unknown error closing valve for sector: \"a\\\"b\""
    );
    assert_eq!(BrokerError::IssueSendingMsg("x".to_string()).message(), "Technical: Issue sending event msg: x");
    assert_eq!(DeviceError::DeviceNotRegistered(5).message(), "Device not in the DB: 0");
    assert_eq!(
        DeviceError::CommandError("u".to_string(), "m".to_string()).message(),
        "Error applying command on the relay. url: 0 error: 1"
    );
}

#[test]
fn maintenance_schedule() {
    assert_eq!(adjust_time_for_delay(CtrlTime(5)), CtrlTime(5 + DB_MAINT_START_DELAY));
    let mut first = DbMaintCfg { db_mnt_days: 7, db_mnt_counter: 0, db_mnt_last_run: CtrlTime(0) };
    assert!(is_running_for_first_time(&first));
    assert_eq!(large_mnt_start(&mut first, CtrlTime(1000)), CtrlTime(1000 + 6 * NR_NANOS_IN_A_DAY + DB_MAINT_START_DELAY));
    let mut again = DbMaintCfg { db_mnt_days: 7, db_mnt_counter: 9, db_mnt_last_run: CtrlTime(500) };
    assert_eq!(large_mnt_start(&mut again, CtrlTime(1000)), CtrlTime(500 + 7 * NR_NANOS_IN_A_DAY));
    assert_eq!(again.db_mnt_counter, 0);
    assert_eq!(maintenance_to_run(true, true), Maintenance::Large);
    assert_eq!(maintenance_to_run(false, true), Maintenance::Daily);
    assert_eq!(maintenance_to_run(false, false), Maintenance::Nothing);
    assert!(is_time_to_run_mnt(CtrlTime(10), CtrlTime(10)));
    assert!(!is_time_to_run_mnt(CtrlTime(10), CtrlTime(9)));
    assert_eq!(adjust_stale_start(CtrlTime(10), CtrlTime(20), NextEvent::At(CtrlTime(30))), CtrlTime(30));
    assert_eq!(adjust_stale_start(CtrlTime(10), CtrlTime(20), NextEvent::Invalid), CtrlTime(10));
    assert_eq!(adjust_stale_start(CtrlTime(30), CtrlTime(20), NextEvent::At(CtrlTime(40))), CtrlTime(30));
}

#[test]
fn rain_window_is_at_least_a_day() {
    let now = CtrlTime(10 * NR_NANOS_IN_A_DAY);
    assert_eq!(rain_since(now, 60), CtrlTime(9 * NR_NANOS_IN_A_DAY));
    assert_eq!(rain_since(now, 2 * NR_NANOS_IN_A_DAY), CtrlTime(8 * NR_NANOS_IN_A_DAY));
}

#[test]
fn startup_check_of_the_valves() {
    assert_eq!(startup_check(RelayState::Error), StartupCheck::Disable);
    assert_eq!(startup_check(RelayState::Open), StartupCheck::Close);
    assert_eq!(startup_check(RelayState::Closed), StartupCheck::Keep);
    assert!(!enabled_after_startup(StartupCheck::Disable, true, true));
    assert!(!enabled_after_startup(StartupCheck::Close, false, true));
    assert!(enabled_after_startup(StartupCheck::Close, true, true));
    assert!(enabled_after_startup(StartupCheck::Keep, false, true));
    assert!(!enabled_after_startup(StartupCheck::Keep, true, false));
}
