use vstd::prelude::*;
use vstd::string::StringExecFns;

verus! {

/// Immutable process configuration: broker URI, client identity, the
/// ordered topic list and the QoS list.
///
/// The topic list carries at least three entries: index 0 is the command
/// topic the session subscribes to, index 1 is the response/status topic,
/// and index 2 is the last-will topic. The QoS list is non-empty; its
/// first entry is used for the command subscription.
pub struct Config {
    pub host: String,
    pub name: String,
    pub topics: Vec<String>,
    pub qos: Vec<i32>,
}

impl Config {
    /// The invariant every usable configuration satisfies: three topics
    /// (command, status, last-will) and at least one QoS entry.
    pub open spec fn well_formed(&self) -> bool {
        &&& self.topics@.len() >= 3
        &&& self.qos@.len() >= 1
    }

    /// Checks the invariant on a loaded value, so a caller can reject a
    /// configuration source that lacks the three topics or a QoS entry.
    pub fn validate(&self) -> (r: bool)
        ensures
            r == self.well_formed(),
    {
        self.topics.len() >= 3 && self.qos.len() >= 1
    }

    /// The built-in default configuration, used when no configuration
    /// source is available.
    pub fn built_in() -> (c: Config)
        ensures
            c.well_formed(),
            c.host@ == "mqtt://10.145.0.4:1883"@,
            c.name@ == "GB3VW"@,
            c.topics@.len() == 3,
            c.topics@[0]@ == "repeater-control"@,
            c.topics@[1]@ == "repeater-control/status"@,
            c.topics@[2]@ == "repeater-control/lwt"@,
            c.qos@.len() == 1,
            c.qos@[0] == 1i32,
    {
        let mut topics: Vec<String> = Vec::new();
        topics.push(String::from_str("repeater-control"));
        topics.push(String::from_str("repeater-control/status"));
        topics.push(String::from_str("repeater-control/lwt"));
        let mut qos: Vec<i32> = Vec::new();
        qos.push(1);
        Config {
            host: String::from_str("mqtt://10.145.0.4:1883"),
            name: String::from_str("GB3VW"),
            topics,
            qos,
        }
    }

    /// The topic the session subscribes to for inbound commands.
    pub fn command_topic(&self) -> (t: &str)
        requires
            self.well_formed(),
        ensures
            t@ == self.topics@[0]@,
    {
        self.topics[0].as_str()
    }

    /// The topic every response is published to.
    pub fn status_topic(&self) -> (t: &str)
        requires
            self.well_formed(),
        ensures
            t@ == self.topics@[1]@,
    {
        self.topics[1].as_str()
    }

    /// The topic the broker publishes the last-will message on.
    pub fn last_will_topic(&self) -> (t: &str)
        requires
            self.well_formed(),
        ensures
            t@ == self.topics@[2]@,
    {
        self.topics[2].as_str()
    }

    /// The QoS used for the command subscription.
    pub fn subscribe_qos(&self) -> (q: i32)
        requires
            self.well_formed(),
        ensures
            q == self.qos@[0],
    {
        self.qos[0]
    }
}

} // verus!
