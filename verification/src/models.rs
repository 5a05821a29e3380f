use vstd::prelude::*;

verus! {

/// Events that the MQTT callback hands over to the main loop.
#[derive(Debug, Clone, Copy, PartialEq, Eq, Structural)]
pub enum SystemEvent {
    MqttConnected,
    MqttDisconnected,
    /// `true`: read the water level continuously; `false`: back to periodic reads.
    SetContinuousLevel(bool),
}

/// A command sent by the controller on the command topic.
#[derive(Debug)]
pub struct CommandPayload {
    pub command: String,
    pub state: bool,
}

/// The name of the only command the node acts on.
pub open spec fn continuous_level_command() -> Seq<char> {
    "continuous_level"@
}

/// What a command asks of the main loop: a `continuous_level` command switches the
/// continuous water-level mode to its `state`; every other command is ignored.
pub open spec fn spec_command_event(command: Seq<char>, state: bool) -> Option<SystemEvent> {
    if command == continuous_level_command() {
        Some(SystemEvent::SetContinuousLevel(state))
    } else {
        None
    }
}

/// A `continuous_level` command raises the mode switch carrying the command's own
/// state, on or off; a command under any other name raises nothing.
pub proof fn lemma_only_continuous_level_acts(command: Seq<char>, state: bool)
    ensures
        spec_command_event("continuous_level"@, state) == Some(SystemEvent::SetContinuousLevel(state)),
        command != "continuous_level"@ ==> spec_command_event(command, state) is None,
        spec_command_event(command, state) matches Some(e) ==> e == SystemEvent::SetContinuousLevel(
            state,
        ),
{
}

impl CommandPayload {
    /// The event that this command raises, if any.
    pub fn to_event(&self) -> (r: Option<SystemEvent>)
        ensures
            r == spec_command_event(self.command@, self.state),
    {
        let name = String::from_str("continuous_level");
        if self.command == name {
            Some(SystemEvent::SetContinuousLevel(self.state))
        } else {
            None
        }
    }
}

/// The part of the sensor node's runtime configuration that drives the schedule:
/// identifiers, intervals (in milliseconds) and which sensors are enabled.
/// The calibration constants of the configuration are not held here.
#[derive(Debug)]
pub struct NodeSettings {
    pub device_id: String,
    pub sampling_interval: i64,
    pub publish_interval: i64,
    pub moving_average_window: i64,
    pub is_ph_enabled: bool,
    pub is_ec_enabled: bool,
    pub is_temp_enabled: bool,
    pub is_water_level_enabled: bool,
}

impl Default for NodeSettings {
    /// Factory settings: report every 5 s, sample every second, average over
    /// 10 samples, every sensor enabled.
    fn default() -> (r: Self)
        ensures
            r.device_id@ == Seq::<char>::empty(),
            r.sampling_interval == 1000,
            r.publish_interval == 5000,
            r.moving_average_window == 10,
            r.is_ph_enabled,
            r.is_ec_enabled,
            r.is_temp_enabled,
            r.is_water_level_enabled,
    {
        NodeSettings {
            device_id: String::new(),
            sampling_interval: 1000,
            publish_interval: 5000,
            moving_average_window: 10,
            is_ph_enabled: true,
            is_ec_enabled: true,
            is_temp_enabled: true,
            is_water_level_enabled: true,
        }
    }
}

} // verus!
