use hydroponic_node::models::SystemEvent;
use hydroponic_node::topics::{MqttEvent, MqttReaction, MqttTopics, TopicRoute};

#[test]
fn topics_are_derived_from_the_client_id() {
    let t = MqttTopics::new("device_001");
    assert_eq!(t.base_topic(), "AGITECH/device_001/sensor");
    assert_eq!(t.config_topic(), "AGITECH/device_001/config/sensor_node");
    assert_eq!(t.command_topic(), "AGITECH/device_001/sensor/command");
}

#[test]
fn data_is_published_under_the_base_topic() {
    let t = MqttTopics::new("device_001");
    assert_eq!(t.publish_topic("data"), "AGITECH/device_001/sensor/data");
    assert_eq!(t.publish_topic("status"), "AGITECH/device_001/sensor/status");
    assert_eq!(t.publish_topic(""), "AGITECH/device_001/sensor/");
}

#[test]
fn subscriptions_are_config_then_command() {
    let t = MqttTopics::new("node-7");
    let subs = t.subscriptions();
    assert_eq!(subs.len(), 2);
    assert_eq!(subs[0], "AGITECH/node-7/config/sensor_node");
    assert_eq!(subs[1], "AGITECH/node-7/sensor/command");
}

#[test]
fn own_topics_are_routed_to_their_handlers() {
    let t = MqttTopics::new("device_001");
    assert_eq!(t.route(Some("AGITECH/device_001/config/sensor_node")), TopicRoute::Config);
    assert_eq!(t.route(Some("AGITECH/device_001/sensor/command")), TopicRoute::Command);
}

#[test]
fn other_topics_are_unrelated() {
    let t = MqttTopics::new("device_001");
    assert_eq!(t.route(None), TopicRoute::Unrelated);
    assert_eq!(t.route(Some("")), TopicRoute::Unrelated);
    assert_eq!(t.route(Some("AGITECH/device_002/config/sensor_node")), TopicRoute::Unrelated);
    assert_eq!(t.route(Some("AGITECH/device_002/sensor/command")), TopicRoute::Unrelated);
    assert_eq!(t.route(Some("AGITECH/device_001/config/sensor_node/")), TopicRoute::Unrelated);
    assert_eq!(t.route(Some("agitech/device_001/sensor/command")), TopicRoute::Unrelated);
}

#[test]
fn published_data_never_reaches_the_config_handler() {
    let t = MqttTopics::new("device_001");
    for suffix in ["data", "status", "config/sensor_node", ""] {
        let topic = t.publish_topic(suffix);
        assert_eq!(t.route(Some(topic.as_str())), TopicRoute::Unrelated);
    }
    let topic = t.publish_topic("command");
    assert_eq!(t.route(Some(topic.as_str())), TopicRoute::Command);
}

#[test]
fn an_empty_client_id_still_gives_distinct_topics() {
    let t = MqttTopics::new("");
    assert_eq!(t.config_topic(), "AGITECH//config/sensor_node");
    assert_eq!(t.route(Some("AGITECH//sensor/command")), TopicRoute::Command);
}

#[test]
fn connection_events_are_handed_to_the_main_loop() {
    let t = MqttTopics::new("device_001");
    assert_eq!(t.react(&MqttEvent::Connected), MqttReaction::Notify(SystemEvent::MqttConnected));
    assert_eq!(
        t.react(&MqttEvent::Disconnected),
        MqttReaction::Notify(SystemEvent::MqttDisconnected)
    );
    assert_eq!(t.react(&MqttEvent::Published(42)), MqttReaction::Ignore);
    assert_eq!(t.react(&MqttEvent::Other), MqttReaction::Ignore);
}

#[test]
fn received_messages_are_dispatched_by_topic() {
    let t = MqttTopics::new("device_001");
    let config = MqttEvent::Received(Some("AGITECH/device_001/config/sensor_node".to_string()));
    let command = MqttEvent::Received(Some("AGITECH/device_001/sensor/command".to_string()));
    let other = MqttEvent::Received(Some("AGITECH/device_001/sensor/data".to_string()));
    assert_eq!(t.react(&config), MqttReaction::UpdateConfig);
    assert_eq!(t.react(&command), MqttReaction::HandleCommand);
    assert_eq!(t.react(&other), MqttReaction::Ignore);
    assert_eq!(t.react(&MqttEvent::Received(None)), MqttReaction::Ignore);
}
