use hydroponic_node::models::{CommandPayload, NodeSettings, SystemEvent};

#[test]
fn continuous_level_command_sets_the_mode() {
    let on = CommandPayload { command: "continuous_level".to_string(), state: true };
    let off = CommandPayload { command: "continuous_level".to_string(), state: false };
    assert_eq!(on.to_event(), Some(SystemEvent::SetContinuousLevel(true)));
    assert_eq!(off.to_event(), Some(SystemEvent::SetContinuousLevel(false)));
}

#[test]
fn other_commands_are_ignored() {
    for name in ["", "continuous", "Continuous_Level", "continuous_level ", "reboot"] {
        let c = CommandPayload { command: name.to_string(), state: true };
        assert_eq!(c.to_event(), None);
    }
}

#[test]
fn default_settings_enable_every_sensor() {
    let s = NodeSettings::default();
    assert_eq!(s.device_id, "");
    assert_eq!(s.sampling_interval, 1000);
    assert_eq!(s.publish_interval, 5000);
    assert_eq!(s.moving_average_window, 10);
    assert!(s.is_ph_enabled && s.is_ec_enabled && s.is_temp_enabled && s.is_water_level_enabled);
}
