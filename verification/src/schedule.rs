use vstd::prelude::*;

use crate::models::{continuous_level_command, spec_command_event, NodeSettings, SystemEvent};

verus! {

/// How often the water level is read in continuous mode, in milliseconds.
pub const CONTINUOUS_INTERVAL_MS: u64 = 500;

/// Nanoseconds in a millisecond.
pub const NANOS_PER_MILLI: u64 = 1_000_000;

/// Time elapsed from `last` to `now` on a monotonic nanosecond clock; a `now` before
/// `last` counts as no time at all.
pub open spec fn elapsed_ns(last: u64, now: u64) -> int {
    if now >= last {
        now - last
    } else {
        0
    }
}

/// Whether at least `interval_ms` milliseconds have passed from `last` to `now`.
pub open spec fn interval_reached(last: u64, now: u64, interval_ms: u64) -> bool {
    elapsed_ns(last, now) >= interval_ms * NANOS_PER_MILLI
}

/// The reporting interval of the settings, in milliseconds; a negative setting is
/// reinterpreted as an unsigned number, as a cast does.
pub open spec fn report_interval_ms(settings: NodeSettings) -> u64 {
    settings.publish_interval as u64
}

/// The state the main loop keeps between its cycles. Times are readings of a
/// monotonic clock, in nanoseconds.
#[derive(Debug, Clone, Copy, PartialEq, Eq, Structural)]
pub struct NodeState {
    pub mqtt_connected: bool,
    pub continuous_level: bool,
    pub last_periodic_ns: u64,
    pub last_continuous_ns: u64,
}

/// What the main loop does in answer to an event, besides updating its state.
#[derive(Debug, Clone, Copy, PartialEq, Eq, Structural)]
pub enum EventAction {
    SubscribeTopics,
    Nothing,
}

/// What one periodic report reads and whether it is sent.
#[derive(Debug, Clone, Copy, PartialEq, Eq, Structural)]
pub struct ReportPlan {
    pub read_temperature: bool,
    pub read_water_level: bool,
    pub publish: bool,
}

/// The outcome of a water-level measurement.
#[derive(Debug, Clone, Copy, PartialEq, Eq, Structural)]
pub enum LevelReading {
    Measured,
    OutOfRange,
    Failed,
}

/// What the continuous water-level task does with a measurement.
#[derive(Debug, Clone, Copy, PartialEq, Eq, Structural)]
pub enum LevelAction {
    /// Send the distance.
    Publish,
    /// A distance was measured, but there is no connection to send it on.
    Drop,
    /// Warn that the surface is out of the sensor's range.
    WarnOutOfRange,
    /// Report that the sensor failed.
    ReportFailure,
}

pub open spec fn state_after_event(s: NodeState, event: SystemEvent) -> NodeState {
    match event {
        SystemEvent::MqttConnected => NodeState { mqtt_connected: true, ..s },
        SystemEvent::MqttDisconnected => NodeState { mqtt_connected: false, ..s },
        SystemEvent::SetContinuousLevel(on) => NodeState { continuous_level: on, ..s },
    }
}

pub open spec fn action_for_event(event: SystemEvent) -> EventAction {
    match event {
        SystemEvent::MqttConnected => EventAction::SubscribeTopics,
        _ => EventAction::Nothing,
    }
}

pub open spec fn spec_report_plan(s: NodeState, settings: NodeSettings) -> ReportPlan {
    ReportPlan {
        read_temperature: settings.is_temp_enabled,
        read_water_level: !s.continuous_level && settings.is_water_level_enabled,
        publish: s.mqtt_connected,
    }
}

pub open spec fn spec_periodic_due(s: NodeState, now: u64, settings: NodeSettings) -> bool {
    interval_reached(s.last_periodic_ns, now, report_interval_ms(settings))
}

pub open spec fn spec_continuous_due(s: NodeState, now: u64, settings: NodeSettings) -> bool {
    &&& s.continuous_level
    &&& settings.is_water_level_enabled
    &&& interval_reached(s.last_continuous_ns, now, CONTINUOUS_INTERVAL_MS)
}

pub open spec fn spec_level_action(s: NodeState, reading: LevelReading) -> LevelAction {
    match reading {
        LevelReading::Measured => if s.mqtt_connected {
            LevelAction::Publish
        } else {
            LevelAction::Drop
        },
        LevelReading::OutOfRange => LevelAction::WarnOutOfRange,
        LevelReading::Failed => LevelAction::ReportFailure,
    }
}

/// The water level is read at most once per cycle of the main loop: the periodic
/// report reads it only outside continuous mode, the continuous task only inside it,
/// and finishing the periodic report does not change the mode.
pub proof fn lemma_level_read_once_per_cycle(
    s: NodeState,
    settings: NodeSettings,
    finished_at: u64,
    now: u64,
)
    ensures
        !(spec_report_plan(s, settings).read_water_level && spec_continuous_due(s, now, settings)),
        !(spec_report_plan(s, settings).read_water_level && spec_continuous_due(
            NodeState { last_periodic_ns: finished_at, ..s },
            now,
            settings,
        )),
{
}

/// Once the connection is lost, nothing is sent until it comes back: neither the
/// periodic report nor the continuous task publishes in a disconnected state.
pub proof fn lemma_nothing_sent_while_disconnected(
    s: NodeState,
    settings: NodeSettings,
    reading: LevelReading,
)
    ensures
        !spec_report_plan(state_after_event(s, SystemEvent::MqttDisconnected), settings).publish,
        spec_level_action(state_after_event(s, SystemEvent::MqttDisconnected), reading)
            != LevelAction::Publish,
        !s.mqtt_connected ==> !spec_report_plan(s, settings).publish && spec_level_action(
            s,
            reading,
        ) != LevelAction::Publish,
{
}

/// With a positive reporting interval, the next periodic report after one finished at
/// `t` is due exactly once the interval has passed since `t`.
pub proof fn lemma_reports_are_spaced(s: NodeState, settings: NodeSettings, t: u64, now: u64)
    requires
        report_interval_ms(settings) > 0,
    ensures
        spec_periodic_due(NodeState { last_periodic_ns: t, ..s }, now, settings) <==> now >= t
            + report_interval_ms(settings) * NANOS_PER_MILLI,
{
}

/// Continuous readings come at most every 500 ms, and only in continuous mode with the
/// water-level sensor enabled.
pub proof fn lemma_continuous_reads_are_spaced(
    s: NodeState,
    settings: NodeSettings,
    t: u64,
    now: u64,
)
    ensures
        spec_continuous_due(NodeState { last_continuous_ns: t, ..s }, now, settings) <==> (
        s.continuous_level && settings.is_water_level_enabled && now >= t + 500_000_000),
{
}

/// A `continuous_level` command switches the continuous mode to its state and changes
/// nothing else; any other command leaves the state as it is.
pub proof fn lemma_command_sets_continuous_mode(s: NodeState, command: Seq<char>, on: bool)
    ensures
        command == continuous_level_command() ==> (spec_command_event(command, on) matches Some(
            e,
        ) && state_after_event(s, e) == (NodeState { continuous_level: on, ..s })),
        command != continuous_level_command() ==> spec_command_event(command, on) is None,
{
}

/// A periodic report is due once `publish_interval` milliseconds have passed since the
/// last one finished, and not a nanosecond earlier.
pub proof fn lemma_report_due_after_publish_interval(s: NodeState, settings: NodeSettings, now: u64)
    requires
        settings.publish_interval >= 0,
        s.last_periodic_ns <= now,
    ensures
        spec_periodic_due(s, now, settings) <==> now - s.last_periodic_ns >= settings.publish_interval
            * 1_000_000,
{
    assert(settings.publish_interval as u64 == settings.publish_interval);
}

/// A negative `publish_interval` means no periodic report is ever due.
pub proof fn lemma_negative_interval_never_due(s: NodeState, settings: NodeSettings, now: u64)
    requires
        settings.publish_interval < 0,
    ensures
        !spec_periodic_due(s, now, settings),
{
    let x = settings.publish_interval;
    assert(x < 0 ==> (x as u64) >= 0x8000_0000_0000_0000u64) by (bit_vector);
    assert(elapsed_ns(s.last_periodic_ns, now) <= u64::MAX);
    assert((x as u64) as int * NANOS_PER_MILLI >= 0x8000_0000_0000_0000int * 1_000_000) by (
    nonlinear_arith)
        requires
            (x as u64) >= 0x8000_0000_0000_0000u64,
    ;
}

/// What a periodic report reads depends on the settings and the mode only, never on
/// the connection: the temperature when enabled, the water level when enabled and not
/// in continuous mode. Whether it is sent depends on the connection only.
pub proof fn lemma_report_plan_contents(s: NodeState, settings: NodeSettings, connected: bool)
    ensures
        spec_report_plan(s, settings).read_temperature == settings.is_temp_enabled,
        spec_report_plan(s, settings).read_water_level == (!s.continuous_level
            && settings.is_water_level_enabled),
        spec_report_plan(s, settings).publish == s.mqtt_connected,
        spec_report_plan(NodeState { mqtt_connected: connected, ..s }, settings).read_water_level
            == spec_report_plan(s, settings).read_water_level,
        spec_report_plan(NodeState { mqtt_connected: connected, ..s }, settings).read_temperature
            == spec_report_plan(s, settings).read_temperature,
{
}

/// A measured water level is sent exactly when connected, in whichever mode; a reading
/// out of range is warned about and a failure reported, connected or not.
pub proof fn lemma_level_action_by_connection(s: NodeState)
    ensures
        spec_level_action(s, LevelReading::Measured) == (if s.mqtt_connected {
            LevelAction::Publish
        } else {
            LevelAction::Drop
        }),
        spec_level_action(s, LevelReading::OutOfRange) == LevelAction::WarnOutOfRange,
        spec_level_action(s, LevelReading::Failed) == LevelAction::ReportFailure,
{
}

/// A connect event always leaves the node connected, asks for the subscriptions and
/// changes nothing else, so the next report is sent; a disconnect always leaves it
/// disconnected; a mode switch sets the mode and keeps the connection.
pub proof fn lemma_events_set_their_flag(s: NodeState, settings: NodeSettings, on: bool)
    ensures
        state_after_event(s, SystemEvent::MqttConnected) == (NodeState {
            mqtt_connected: true,
            ..s
        }),
        action_for_event(SystemEvent::MqttConnected) == EventAction::SubscribeTopics,
        spec_report_plan(state_after_event(s, SystemEvent::MqttConnected), settings).publish,
        state_after_event(s, SystemEvent::MqttDisconnected) == (NodeState {
            mqtt_connected: false,
            ..s
        }),
        action_for_event(SystemEvent::MqttDisconnected) == EventAction::Nothing,
        state_after_event(s, SystemEvent::SetContinuousLevel(on)) == (NodeState {
            continuous_level: on,
            ..s
        }),
        action_for_event(SystemEvent::SetContinuousLevel(on)) == EventAction::Nothing,
{
}

/// `elapsed / 1_000_000 >= m` exactly when `elapsed >= m * 1_000_000`.
proof fn lemma_whole_millis(elapsed: int, m: int)
    requires
        elapsed >= 0,
        m >= 0,
    ensures
        (elapsed / 1_000_000 >= m) <==> (elapsed >= m * 1_000_000),
{
    assert((elapsed / 1_000_000 >= m) <==> (elapsed >= m * 1_000_000)) by (nonlinear_arith)
        requires
            elapsed >= 0,
            m >= 0,
    ;
}

/// Whether at least `interval_ms` milliseconds have passed from `last` to `now`.
fn interval_has_passed(last: u64, now: u64, interval_ms: u64) -> (r: bool)
    ensures
        r == interval_reached(last, now, interval_ms),
{
    let elapsed = now.saturating_sub(last);
    let whole_ms = elapsed / NANOS_PER_MILLI;
    proof {
        lemma_whole_millis(elapsed as int, interval_ms as int);
    }
    whole_ms >= interval_ms
}

impl NodeState {
    /// The state when the main loop starts at time `now`: not connected, periodic mode.
    pub fn new(now: u64) -> (r: Self)
        ensures
            r == (NodeState {
                mqtt_connected: false,
                continuous_level: false,
                last_periodic_ns: now,
                last_continuous_ns: now,
            }),
    {
        NodeState {
            mqtt_connected: false,
            continuous_level: false,
            last_periodic_ns: now,
            last_continuous_ns: now,
        }
    }

    /// Takes in an event from the MQTT callback.
    pub fn handle_event(&mut self, event: SystemEvent) -> (a: EventAction)
        ensures
            *final(self) == state_after_event(*old(self), event),
            a == action_for_event(event),
    {
        match event {
            SystemEvent::MqttConnected => {
                self.mqtt_connected = true;
                EventAction::SubscribeTopics
            },
            SystemEvent::MqttDisconnected => {
                self.mqtt_connected = false;
                EventAction::Nothing
            },
            SystemEvent::SetContinuousLevel(on) => {
                self.continuous_level = on;
                EventAction::Nothing
            },
        }
    }

    /// Whether a periodic report is due at `now`.
    pub fn periodic_due(&self, now: u64, settings: &NodeSettings) -> (r: bool)
        ensures
            r == spec_periodic_due(*self, now, *settings),
    {
        interval_has_passed(self.last_periodic_ns, now, settings.publish_interval as u64)
    }

    /// What a periodic report reads and whether it is sent: the water level is read
    /// here only outside continuous mode, and nothing is sent while disconnected.
    pub fn report_plan(&self, settings: &NodeSettings) -> (r: ReportPlan)
        ensures
            r == spec_report_plan(*self, *settings),
    {
        ReportPlan {
            read_temperature: settings.is_temp_enabled,
            read_water_level: !self.continuous_level && settings.is_water_level_enabled,
            publish: self.mqtt_connected,
        }
    }

    /// Records that a periodic report was finished at `now`.
    pub fn finish_periodic(&mut self, now: u64)
        ensures
            *final(self) == (NodeState { last_periodic_ns: now, ..*old(self) }),
    {
        self.last_periodic_ns = now;
    }

    /// Whether a continuous water-level reading is due at `now`.
    pub fn continuous_due(&self, now: u64, settings: &NodeSettings) -> (r: bool)
        ensures
            r == spec_continuous_due(*self, now, *settings),
    {
        self.continuous_level && settings.is_water_level_enabled && interval_has_passed(
            self.last_continuous_ns,
            now,
            CONTINUOUS_INTERVAL_MS,
        )
    }

    /// What the continuous task does with a water-level measurement.
    pub fn level_action(&self, reading: LevelReading) -> (r: LevelAction)
        ensures
            r == spec_level_action(*self, reading),
    {
        match reading {
            LevelReading::Measured => if self.mqtt_connected {
                LevelAction::Publish
            } else {
                LevelAction::Drop
            },
            LevelReading::OutOfRange => LevelAction::WarnOutOfRange,
            LevelReading::Failed => LevelAction::ReportFailure,
        }
    }

    /// Records that a continuous reading was finished at `now`.
    pub fn finish_continuous(&mut self, now: u64)
        ensures
            *final(self) == (NodeState { last_continuous_ns: now, ..*old(self) }),
    {
        self.last_continuous_ns = now;
    }
}

} // verus!
