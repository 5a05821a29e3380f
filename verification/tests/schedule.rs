use hydroponic_node::models::{CommandPayload, NodeSettings, SystemEvent};
use hydroponic_node::schedule::{EventAction, LevelAction, LevelReading, NodeState, ReportPlan};

const MS: u64 = 1_000_000;

fn connected_state(now: u64) -> NodeState {
    let mut s = NodeState::new(now);
    assert_eq!(s.handle_event(SystemEvent::MqttConnected), EventAction::SubscribeTopics);
    s
}

#[test]
fn the_loop_starts_disconnected_in_periodic_mode() {
    let s = NodeState::new(7);
    assert!(!s.mqtt_connected && !s.continuous_level);
    assert_eq!(s.last_periodic_ns, 7);
    assert_eq!(s.last_continuous_ns, 7);
}

#[test]
fn events_update_the_state() {
    let mut s = NodeState::new(0);
    assert_eq!(s.handle_event(SystemEvent::MqttConnected), EventAction::SubscribeTopics);
    assert!(s.mqtt_connected);
    assert_eq!(s.handle_event(SystemEvent::SetContinuousLevel(true)), EventAction::Nothing);
    assert!(s.continuous_level && s.mqtt_connected);
    assert_eq!(s.handle_event(SystemEvent::MqttDisconnected), EventAction::Nothing);
    assert!(!s.mqtt_connected && s.continuous_level);
    assert_eq!(s.handle_event(SystemEvent::SetContinuousLevel(false)), EventAction::Nothing);
    assert!(!s.continuous_level);
    assert_eq!(s.last_periodic_ns, 0);
}

#[test]
fn periodic_report_is_due_after_the_publish_interval() {
    let settings = NodeSettings::default();
    let s = NodeState::new(1_000);
    assert!(!s.periodic_due(1_000, &settings));
    assert!(!s.periodic_due(1_000 + 5000 * MS - 1, &settings));
    assert!(s.periodic_due(1_000 + 5000 * MS, &settings));
    assert!(s.periodic_due(u64::MAX, &settings));
}

#[test]
fn a_clock_reading_before_the_last_report_counts_as_no_time() {
    let mut settings = NodeSettings::default();
    let s = NodeState::new(10 * MS);
    assert!(!s.periodic_due(0, &settings));
    settings.publish_interval = 0;
    assert!(s.periodic_due(0, &settings));
}

#[test]
fn a_negative_interval_is_read_as_a_huge_one() {
    let mut settings = NodeSettings::default();
    settings.publish_interval = -1;
    let s = NodeState::new(0);
    assert!(!s.periodic_due(u64::MAX, &settings));
}

#[test]
fn finishing_a_report_restarts_the_interval() {
    let settings = NodeSettings::default();
    let mut s = NodeState::new(0);
    assert!(s.periodic_due(6000 * MS, &settings));
    s.finish_periodic(6000 * MS);
    assert_eq!(s.last_periodic_ns, 6000 * MS);
    assert!(!s.periodic_due(10_999 * MS, &settings));
    assert!(s.periodic_due(11_000 * MS, &settings));
}

#[test]
fn report_plan_follows_settings_and_mode() {
    let mut settings = NodeSettings::default();
    let mut s = NodeState::new(0);
    assert_eq!(
        s.report_plan(&settings),
        ReportPlan { read_temperature: true, read_water_level: true, publish: false }
    );
    s.handle_event(SystemEvent::MqttConnected);
    s.handle_event(SystemEvent::SetContinuousLevel(true));
    assert_eq!(
        s.report_plan(&settings),
        ReportPlan { read_temperature: true, read_water_level: false, publish: true }
    );
    settings.is_temp_enabled = false;
    s.handle_event(SystemEvent::SetContinuousLevel(false));
    settings.is_water_level_enabled = false;
    assert_eq!(
        s.report_plan(&settings),
        ReportPlan { read_temperature: false, read_water_level: false, publish: true }
    );
}

#[test]
fn continuous_reads_need_the_mode_the_sensor_and_500_ms() {
    let mut settings = NodeSettings::default();
    let mut s = connected_state(0);
    assert!(!s.continuous_due(10_000 * MS, &settings));
    s.handle_event(SystemEvent::SetContinuousLevel(true));
    assert!(!s.continuous_due(500 * MS - 1, &settings));
    assert!(s.continuous_due(500 * MS, &settings));
    s.finish_continuous(600 * MS);
    assert!(!s.continuous_due(1_099 * MS, &settings));
    assert!(s.continuous_due(1_100 * MS, &settings));
    settings.is_water_level_enabled = false;
    assert!(!s.continuous_due(5_000 * MS, &settings));
}

#[test]
fn the_level_is_read_once_per_cycle() {
    let settings = NodeSettings::default();
    let mut s = connected_state(0);
    for on in [false, true] {
        s.handle_event(SystemEvent::SetContinuousLevel(on));
        let both = s.report_plan(&settings).read_water_level && s.continuous_due(9_000 * MS, &settings);
        assert!(!both);
    }
}

#[test]
fn measurements_are_sent_only_while_connected() {
    let mut s = connected_state(0);
    assert_eq!(s.level_action(LevelReading::Measured), LevelAction::Publish);
    assert_eq!(s.level_action(LevelReading::OutOfRange), LevelAction::WarnOutOfRange);
    assert_eq!(s.level_action(LevelReading::Failed), LevelAction::ReportFailure);
    s.handle_event(SystemEvent::MqttDisconnected);
    assert_eq!(s.level_action(LevelReading::Measured), LevelAction::Drop);
    assert!(!s.report_plan(&NodeSettings::default()).publish);
}

#[test]
fn a_continuous_level_command_switches_the_mode_only() {
    let mut s = NodeState::new(3);
    s.handle_event(SystemEvent::MqttConnected);
    let before = s;
    let on = CommandPayload { command: "continuous_level".to_string(), state: true };
    let event = on.to_event().expect("a continuous_level command raises an event");
    assert_eq!(s.handle_event(event), EventAction::Nothing);
    assert_eq!(s, NodeState { continuous_level: true, ..before });
    let other = CommandPayload { command: "pump".to_string(), state: true };
    assert_eq!(other.to_event(), None);
}
