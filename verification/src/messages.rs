//! The data model of the relay: published messages, envelopes carried on the
//! hub, and subscription filters.

use vstd::prelude::*;

verus! {

/// One published message: an opaque payload `data` filed under a `topic`.
/// The relay forwards `data` verbatim and never interprets it.
#[derive(Debug)]
pub struct PublisherMsg {
    pub topic: String,
    pub data: String,
}

/// The mathematical value of a [`PublisherMsg`]: both fields as character
/// sequences.
pub struct PublisherMsgView {
    pub topic: Seq<char>,
    pub data: Seq<char>,
}

impl View for PublisherMsg {
    type V = PublisherMsgView;

    open spec fn view(&self) -> PublisherMsgView {
        PublisherMsgView { topic: self.topic@, data: self.data@ }
    }
}

impl Clone for PublisherMsg {
    fn clone(&self) -> (r: Self)
        ensures
            r@ == self@,
    {
        PublisherMsg { topic: self.topic.clone(), data: self.data.clone() }
    }
}

/// A subscription filter: the publisher name and topic a subscriber asked
/// for. Matching is by exact string equality, case-sensitive, no wildcards.
#[derive(Debug)]
pub struct SubscriberMsg {
    pub publisher: String,
    pub topic: String,
}

/// The mathematical value of a [`SubscriberMsg`].
pub struct SubscriberMsgView {
    pub publisher: Seq<char>,
    pub topic: Seq<char>,
}

impl View for SubscriberMsg {
    type V = SubscriberMsgView;

    open spec fn view(&self) -> SubscriberMsgView {
        SubscriberMsgView { publisher: self.publisher@, topic: self.topic@ }
    }
}

impl Clone for SubscriberMsg {
    fn clone(&self) -> (r: Self)
        ensures
            r@ == self@,
    {
        SubscriberMsg { publisher: self.publisher.clone(), topic: self.topic.clone() }
    }
}

/// An envelope: a published message tagged with the name its publisher bound
/// at authentication time. This is the unit carried on the hub.
#[derive(Debug)]
pub struct PubSubMsg {
    pub name: String,
    pub msg: PublisherMsg,
}

/// The mathematical value of a [`PubSubMsg`].
pub struct PubSubMsgView {
    pub name: Seq<char>,
    pub msg: PublisherMsgView,
}

impl View for PubSubMsg {
    type V = PubSubMsgView;

    open spec fn view(&self) -> PubSubMsgView {
        PubSubMsgView { name: self.name@, msg: self.msg@ }
    }
}

impl Clone for PubSubMsg {
    fn clone(&self) -> (r: Self)
        ensures
            r@ == self@,
    {
        PubSubMsg { name: self.name.clone(), msg: self.msg.clone() }
    }
}

impl PubSubMsg {
    /// Wrap a published message into an envelope tagged with `name`.
    pub fn new(msg: PublisherMsg, name: String) -> (r: Self)
        ensures
            r@.name == name@,
            r@.msg == msg@,
    {
        Self { name, msg }
    }
}

/// Whether an envelope is selected by a filter: its publisher name and its
/// topic both match the filter exactly.
pub open spec fn envelope_matches(filter: SubscriberMsgView, env: PubSubMsgView) -> bool {
    env.name == filter.publisher && env.msg.topic == filter.topic
}

/// Decide whether an envelope is selected by a filter. An envelope passes
/// exactly when its publisher name and its topic both equal the filter's,
/// character for character: a mismatched name, a mismatched topic, or both,
/// never pass.
pub fn matches_filter(filter: &SubscriberMsg, env: &PubSubMsg) -> (r: bool)
    ensures
        r == envelope_matches(filter@, env@),
{
    env.name == filter.publisher && env.msg.topic == filter.topic
}

} // verus!
