//! The data that requests and notifications carry: quality of service, packet
//! identifiers, and the bodies of publish, subscribe and unsubscribe messages.

use std::sync::Arc;
use vstd::prelude::*;

verus! {

/// Delivery guarantee of a message.
#[derive(Clone, Copy, Debug, PartialEq, Eq, Structural)]
pub enum QoS {
    AtMostOnce,
    AtLeastOnce,
    ExactlyOnce,
}

/// Correlates a request with its acknowledgement. Zero is never a valid
/// identifier on the wire, so it marks an identifier that the engine has yet
/// to assign.
#[derive(Clone, Copy, Debug, PartialEq, Eq, Structural)]
pub struct PacketIdentifier(pub u16);

impl PacketIdentifier {
    /// True of the marker for "not assigned yet".
    pub open spec fn is_unassigned(self) -> bool {
        self.0 == 0
    }

    /// The marker for "not assigned yet".
    pub fn zero() -> (pkid: PacketIdentifier)
        ensures
            pkid == PacketIdentifier(0),
            pkid.is_unassigned(),
    {
        PacketIdentifier(0)
    }
}

/// An application message, outbound or inbound.
#[derive(Clone, Debug, PartialEq, Eq)]
pub struct Publish {
    pub dup: bool,
    pub qos: QoS,
    pub retain: bool,
    pub topic_name: String,
    pub pkid: Option<PacketIdentifier>,
    pub payload: Arc<Vec<u8>>,
}

/// What a [`Publish`] holds, as mathematical values.
pub struct PublishView {
    pub dup: bool,
    pub qos: QoS,
    pub retain: bool,
    pub topic_name: Seq<char>,
    pub pkid: Option<PacketIdentifier>,
    pub payload: Seq<u8>,
}

impl View for Publish {
    type V = PublishView;

    open spec fn view(&self) -> PublishView {
        PublishView {
            dup: self.dup,
            qos: self.qos,
            retain: self.retain,
            topic_name: self.topic_name@,
            pkid: self.pkid,
            payload: self.payload@,
        }
    }
}

/// One topic filter of a subscription, with the delivery guarantee asked for.
#[derive(Clone, Debug, PartialEq, Eq)]
pub struct SubscribeTopic {
    pub topic_path: String,
    pub qos: QoS,
}

/// What a [`SubscribeTopic`] holds, as mathematical values.
pub struct SubscribeTopicView {
    pub topic_path: Seq<char>,
    pub qos: QoS,
}

impl View for SubscribeTopic {
    type V = SubscribeTopicView;

    open spec fn view(&self) -> SubscribeTopicView {
        SubscribeTopicView { topic_path: self.topic_path@, qos: self.qos }
    }
}

/// A request to subscribe to a list of topic filters.
#[derive(Clone, Debug, PartialEq, Eq)]
pub struct Subscribe {
    pub pkid: PacketIdentifier,
    pub topics: Vec<SubscribeTopic>,
}

/// What a [`Subscribe`] holds, as mathematical values.
pub struct SubscribeView {
    pub pkid: PacketIdentifier,
    pub topics: Seq<SubscribeTopicView>,
}

impl View for Subscribe {
    type V = SubscribeView;

    open spec fn view(&self) -> SubscribeView {
        SubscribeView {
            pkid: self.pkid,
            topics: self.topics@.map_values(|t: SubscribeTopic| t@),
        }
    }
}

/// A request to drop the subscriptions to a list of topic filters.
#[derive(Clone, Debug, PartialEq, Eq)]
pub struct Unsubscribe {
    pub pkid: PacketIdentifier,
    pub topics: Vec<String>,
}

/// What an [`Unsubscribe`] holds, as mathematical values.
pub struct UnsubscribeView {
    pub pkid: PacketIdentifier,
    pub topics: Seq<Seq<char>>,
}

impl View for Unsubscribe {
    type V = UnsubscribeView;

    open spec fn view(&self) -> UnsubscribeView {
        UnsubscribeView { pkid: self.pkid, topics: self.topics@.map_values(|t: String| t@) }
    }
}

} // verus!
