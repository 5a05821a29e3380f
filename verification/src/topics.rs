use vstd::prelude::*;

use crate::models::SystemEvent;

verus! {

/// `AGITECH/{client_id}`: the root under which every topic of a node lives.
pub open spec fn node_root(client_id: Seq<char>) -> Seq<char> {
    "AGITECH/"@ + client_id
}

/// `AGITECH/{client_id}/sensor`: the root of the topics the node publishes on.
pub open spec fn base_topic_of(client_id: Seq<char>) -> Seq<char> {
    node_root(client_id) + "/sensor"@
}

/// `AGITECH/{client_id}/config/sensor_node`: where the controller sends configurations.
pub open spec fn config_topic_of(client_id: Seq<char>) -> Seq<char> {
    node_root(client_id) + "/config/sensor_node"@
}

/// `AGITECH/{client_id}/sensor/command`: where the controller sends commands.
pub open spec fn command_topic_of(client_id: Seq<char>) -> Seq<char> {
    node_root(client_id) + "/sensor/command"@
}

/// `{base topic}/{suffix}`: the topic a payload is published on.
pub open spec fn publish_topic_of(client_id: Seq<char>, suffix: Seq<char>) -> Seq<char> {
    base_topic_of(client_id) + "/"@ + suffix
}

/// A configuration topic never equals a command topic, whatever the two client ids:
/// the one ends in `e`, the other in `d`.
pub proof fn lemma_config_topic_is_not_a_command_topic(a: Seq<char>, b: Seq<char>)
    ensures
        config_topic_of(a) != command_topic_of(b),
{
    reveal_strlit("AGITECH/");
    reveal_strlit("/config/sensor_node");
    reveal_strlit("/sensor/command");
    let c = config_topic_of(a);
    let d = command_topic_of(b);
    if c == d {
        assert(c[c.len() - 1] == 'e');
        assert(d[d.len() - 1] == 'd');
    }
}

/// `prefix + x == prefix + y` only when `x == y`.
proof fn lemma_cancel_prefix(prefix: Seq<char>, x: Seq<char>, y: Seq<char>)
    requires
        prefix + x == prefix + y,
    ensures
        x == y,
{
    assert(x =~= (prefix + x).skip(prefix.len() as int));
    assert(y =~= (prefix + y).skip(prefix.len() as int));
}

/// `x + suffix == y + suffix` only when `x == y`.
proof fn lemma_cancel_suffix(x: Seq<char>, y: Seq<char>, suffix: Seq<char>)
    requires
        x + suffix == y + suffix,
    ensures
        x == y,
{
    assert(x =~= (x + suffix).take(x.len() as int));
    assert(y =~= (y + suffix).take(y.len() as int));
}

/// Each client id has its own configuration topic and its own command topic.
pub proof fn lemma_topics_identify_the_client(a: Seq<char>, b: Seq<char>)
    ensures
        config_topic_of(a) == config_topic_of(b) <==> a == b,
        command_topic_of(a) == command_topic_of(b) <==> a == b,
{
    if config_topic_of(a) == config_topic_of(b) {
        lemma_cancel_suffix(node_root(a), node_root(b), "/config/sensor_node"@);
        lemma_cancel_prefix("AGITECH/"@, a, b);
    }
    if command_topic_of(a) == command_topic_of(b) {
        lemma_cancel_suffix(node_root(a), node_root(b), "/sensor/command"@);
        lemma_cancel_prefix("AGITECH/"@, a, b);
    }
}

/// A node sends a message on a configuration topic to its configuration handler and one
/// on a command topic to its command handler when the topic is its own, and ignores
/// the topics of every other node.
pub proof fn lemma_routes_own_topics_only(own: Seq<char>, other: Seq<char>)
    ensures
        route_of(config_topic_of(other), own) == (if other == own {
            TopicRoute::Config
        } else {
            TopicRoute::Unrelated
        }),
        route_of(command_topic_of(other), own) == (if other == own {
            TopicRoute::Command
        } else {
            TopicRoute::Unrelated
        }),
{
    lemma_topics_identify_the_client(other, own);
    lemma_config_topic_is_not_a_command_topic(other, own);
    lemma_config_topic_is_not_a_command_topic(own, other);
}

/// What a node publishes never reaches its own configuration handler; it reaches its
/// command handler only when published with the suffix `command`.
pub proof fn lemma_route_of_published_topic(client_id: Seq<char>, suffix: Seq<char>)
    ensures
        route_of(publish_topic_of(client_id, suffix), client_id) == (if suffix
            == "command"@ {
            TopicRoute::Command
        } else {
            TopicRoute::Unrelated
        }),
{
    reveal_strlit("AGITECH/");
    reveal_strlit("/config/sensor_node");
    reveal_strlit("/sensor/command");
    reveal_strlit("/sensor");
    reveal_strlit("/");
    reveal_strlit("command");
    let root = node_root(client_id);
    let p = publish_topic_of(client_id, suffix);
    let c = config_topic_of(client_id);
    let k: int = root.len() as int + 1;
    assert(p[k] == 's');
    assert(c[k] == 'c');
    let head = root + "/sensor"@ + "/"@;
    assert(p == head + suffix);
    assert(command_topic_of(client_id) =~= head + "command"@);
    if p == command_topic_of(client_id) {
        lemma_cancel_prefix(head, suffix, "command"@);
    }
}

/// Which handler a received message goes to.
#[derive(Debug, Clone, Copy, PartialEq, Eq, Structural)]
pub enum TopicRoute {
    Config,
    Command,
    Unrelated,
}

/// The topic of a received message as text; a message without a topic counts as
/// one with the empty topic.
pub open spec fn topic_text(topic: Option<Seq<char>>) -> Seq<char> {
    match topic {
        Some(t) => t,
        None => Seq::<char>::empty(),
    }
}

/// The configuration topic is checked first, then the command topic.
pub open spec fn route_of(topic: Seq<char>, client_id: Seq<char>) -> TopicRoute {
    if topic == config_topic_of(client_id) {
        TopicRoute::Config
    } else if topic == command_topic_of(client_id) {
        TopicRoute::Command
    } else {
        TopicRoute::Unrelated
    }
}

/// An MQTT client event, with what the node reads of it.
#[derive(Debug)]
pub enum MqttEvent {
    Connected,
    Disconnected,
    Published(u32),
    Received(Option<String>),
    Other,
}

/// What the node does in answer to an MQTT client event.
#[derive(Debug, Clone, Copy, PartialEq, Eq, Structural)]
pub enum MqttReaction {
    /// Hand this event to the main loop.
    Notify(SystemEvent),
    /// Parse the message as a configuration and install it.
    UpdateConfig,
    /// Parse the message as a command.
    HandleCommand,
    /// Nothing to do.
    Ignore,
}

pub open spec fn reaction_to_route(route: TopicRoute) -> MqttReaction {
    match route {
        TopicRoute::Config => MqttReaction::UpdateConfig,
        TopicRoute::Command => MqttReaction::HandleCommand,
        TopicRoute::Unrelated => MqttReaction::Ignore,
    }
}

pub open spec fn reaction_of(event: MqttEvent, client_id: Seq<char>) -> MqttReaction {
    match event {
        MqttEvent::Connected => MqttReaction::Notify(SystemEvent::MqttConnected),
        MqttEvent::Disconnected => MqttReaction::Notify(SystemEvent::MqttDisconnected),
        MqttEvent::Received(topic) => reaction_to_route(
            route_of(
                topic_text(
                    match topic {
                        Some(t) => Some(t@),
                        None => None,
                    },
                ),
                client_id,
            ),
        ),
        _ => MqttReaction::Ignore,
    }
}

/// The topics of one node, all derived from its client id.
pub struct MqttTopics {
    base_topic: String,
    config_topic: String,
    cmd_topic: String,
    client: Ghost<Seq<char>>,
}

/// Builds `AGITECH/{client_id}{tail}`.
fn node_topic(client_id: &str, tail: &str) -> (r: String)
    ensures
        r@ == node_root(client_id@) + tail@,
{
    let mut t = String::from_str("AGITECH/");
    t.append(client_id);
    t.append(tail);
    t
}

impl MqttTopics {
    #[verifier::type_invariant]
    spec fn derived_from_client(self) -> bool {
        &&& self.base_topic@ == base_topic_of(self.client@)
        &&& self.config_topic@ == config_topic_of(self.client@)
        &&& self.cmd_topic@ == command_topic_of(self.client@)
    }

    /// The client id the topics were made for.
    pub closed spec fn client_id(&self) -> Seq<char> {
        self.client@
    }

    /// The topics of the node with this client id.
    pub fn new(client_id: &str) -> (r: Self)
        ensures
            r.client_id() == client_id@,
    {
        MqttTopics {
            base_topic: node_topic(client_id, "/sensor"),
            config_topic: node_topic(client_id, "/config/sensor_node"),
            cmd_topic: node_topic(client_id, "/sensor/command"),
            client: Ghost(client_id@),
        }
    }

    pub fn base_topic(&self) -> (r: &str)
        ensures
            r@ == base_topic_of(self.client_id()),
    {
        proof {
            use_type_invariant(self);
        }
        self.base_topic.as_str()
    }

    pub fn config_topic(&self) -> (r: &str)
        ensures
            r@ == config_topic_of(self.client_id()),
    {
        proof {
            use_type_invariant(self);
        }
        self.config_topic.as_str()
    }

    pub fn command_topic(&self) -> (r: &str)
        ensures
            r@ == command_topic_of(self.client_id()),
    {
        proof {
            use_type_invariant(self);
        }
        self.cmd_topic.as_str()
    }

    /// The topics to subscribe to once connected, in order: configuration, then command.
    pub fn subscriptions(&self) -> (r: Vec<String>)
        ensures
            r@.len() == 2,
            r@[0]@ == config_topic_of(self.client_id()),
            r@[1]@ == command_topic_of(self.client_id()),
    {
        proof {
            use_type_invariant(self);
        }
        let mut v: Vec<String> = Vec::new();
        v.push(self.config_topic.clone());
        v.push(self.cmd_topic.clone());
        v
    }

    /// The topic a payload with this suffix is published on,
    /// e.g. `AGITECH/device_001/sensor/data` for the suffix `data`.
    pub fn publish_topic(&self, suffix: &str) -> (r: String)
        ensures
            r@ == publish_topic_of(self.client_id(), suffix@),
    {
        proof {
            use_type_invariant(self);
        }
        let mut t = self.base_topic.clone();
        t.append("/");
        t.append(suffix);
        t
    }

    /// Which handler a message received on `topic` goes to.
    pub fn route(&self, topic: Option<&str>) -> (r: TopicRoute)
        ensures
            r == route_of(
                topic_text(
                    match topic {
                        Some(t) => Some(t@),
                        None => None,
                    },
                ),
                self.client_id(),
            ),
    {
        proof {
            use_type_invariant(self);
        }
        let text = match topic {
            Some(t) => String::from_str(t),
            None => String::new(),
        };
        if text == self.config_topic {
            TopicRoute::Config
        } else if text == self.cmd_topic {
            TopicRoute::Command
        } else {
            TopicRoute::Unrelated
        }
    }

    /// What to do in answer to an MQTT client event.
    pub fn react(&self, event: &MqttEvent) -> (r: MqttReaction)
        ensures
            r == reaction_of(*event, self.client_id()),
    {
        match event {
            MqttEvent::Connected => MqttReaction::Notify(SystemEvent::MqttConnected),
            MqttEvent::Disconnected => MqttReaction::Notify(SystemEvent::MqttDisconnected),
            MqttEvent::Received(topic) => {
                let route = match topic {
                    Some(t) => self.route(Some(t.as_str())),
                    None => self.route(None),
                };
                match route {
                    TopicRoute::Config => MqttReaction::UpdateConfig,
                    TopicRoute::Command => MqttReaction::HandleCommand,
                    TopicRoute::Unrelated => MqttReaction::Ignore,
                }
            },
            _ => MqttReaction::Ignore,
        }
    }
}

} // verus!
