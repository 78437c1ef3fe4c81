//! Events that a broker connector reports about topics and connections.
//!
//! A broker connector watches the messaging broker for subscribe and unsubscribe requests and
//! for publishers that disconnect uncleanly. Each such observation reaches the topic manager as
//! a [`MonitorMessage`]; the manager's own cleanup sweep uses the same message type for its
//! timeout reminders and deferred deletions.
use vstd::prelude::*;

verus! {

/// Message sent over a topic channel telling any remaining subscribers that the topic is gone.
pub const TOPIC_DELETED_MSG: &'static str = "TOPIC DELETED";

/// Protocol spoken by the messaging broker.
#[derive(Debug, Clone, Copy, PartialEq, Eq, Structural)]
pub enum PubSubProtocol {
    /// The MQTT protocol.
    Mqtt,
}

impl PubSubProtocol {
    /// The protocol's name.
    pub open spec fn spec_name(self) -> Seq<char> {
        match self {
            PubSubProtocol::Mqtt => "Mqtt"@,
        }
    }

    /// Returns the protocol's name, as it is written in logs.
    pub fn to_string(&self) -> (r: String)
        ensures
            r@ == self.spec_name(),
    {
        match self {
            PubSubProtocol::Mqtt => "Mqtt".to_string(),
        }
    }
}

/// Something that happened to a topic or a connection on the messaging broker.
#[derive(Debug, Clone, Copy, PartialEq, Eq, Structural)]
pub enum PubSubAction {
    /// A client subscribed to a topic.
    Subscribe,
    /// A client unsubscribed from a topic.
    Unsubscribe,
    /// A topic has had no subscribers for longer than the stale threshold.
    Timeout,
    /// A topic is to be deleted.
    Delete,
    /// A publisher disconnected uncleanly.
    PubDisconnect,
}

impl PubSubAction {
    /// The action's name in upper case.
    pub open spec fn spec_name(self) -> Seq<char> {
        match self {
            PubSubAction::Subscribe => "SUBSCRIBE"@,
            PubSubAction::Unsubscribe => "UNSUBSCRIBE"@,
            PubSubAction::Timeout => "TIMEOUT"@,
            PubSubAction::Delete => "DELETE"@,
            PubSubAction::PubDisconnect => "PUBDISCONNECT"@,
        }
    }

    /// Returns the action's name in upper case (`"SUBSCRIBE"`, `"PUBDISCONNECT"`, ...).
    pub fn to_string(&self) -> (r: String)
        ensures
            r@ == self.spec_name(),
    {
        match self {
            PubSubAction::Subscribe => "SUBSCRIBE".to_string(),
            PubSubAction::Unsubscribe => "UNSUBSCRIBE".to_string(),
            PubSubAction::Timeout => "TIMEOUT".to_string(),
            PubSubAction::Delete => "DELETE".to_string(),
            PubSubAction::PubDisconnect => "PUBDISCONNECT".to_string(),
        }
    }
}

/// A report from the broker connector, or from the cleanup sweep, about one topic or publisher.
#[derive(Debug)]
pub struct MonitorMessage {
    /// The topic the action concerns; for [`PubSubAction::PubDisconnect`], the publisher's id.
    pub context: String,
    /// What happened.
    pub action: PubSubAction,
}

} // verus!
