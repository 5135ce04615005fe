//! Owned message values. A message never aliases engine memory: topic
//! and payload are owned copies, whether the application built the
//! message for publishing or a trampoline built it from engine buffers.

use vstd::prelude::*;
use crate::types::QoS;

verus! {

/// A protocol message as one owned value.
#[derive(Debug, Clone)]
pub struct Message {
    pub(crate) topic: String,
    pub(crate) payload: Vec<u8>,
    pub(crate) qos: QoS,
    pub(crate) retained: bool,
}

/// The mathematical content of a message.
#[verifier::ext_equal]
pub struct MessageView {
    pub topic: Seq<char>,
    pub payload: Seq<u8>,
    pub qos: QoS,
    pub retained: bool,
}

impl View for Message {
    type V = MessageView;

    closed spec fn view(&self) -> MessageView {
        MessageView {
            topic: self.topic@,
            payload: self.payload@,
            qos: self.qos,
            retained: self.retained,
        }
    }
}

impl Message {
    /// What a freshly constructed outbound message holds: the given topic
    /// and payload, at-most-once delivery, not retained.
    pub open spec fn spec_new(topic: Seq<char>, payload: Seq<u8>) -> MessageView {
        MessageView { topic, payload, qos: QoS::AtMostOnce, retained: false }
    }

    /// Construct an outbound message with the default delivery level.
    pub fn new(topic: String, payload: Vec<u8>) -> (m: Message)
        ensures
            m@ == Message::spec_new(topic@, payload@),
    {
        Message { topic, payload, qos: QoS::AtMostOnce, retained: false }
    }

    /// Assemble a message from already-validated parts; the trampoline
    /// path builds its inbound messages through this.
    pub(crate) fn assemble(topic: String, payload: Vec<u8>, qos: QoS, retained: bool) -> (m:
        Message)
        ensures
            m@ == (MessageView { topic: topic@, payload: payload@, qos, retained }),
    {
        Message { topic, payload, qos, retained }
    }

    /// The same message at another delivery level.
    pub fn with_qos(self, qos: QoS) -> (m: Message)
        ensures
            m@ == (MessageView { qos, ..self@ }),
    {
        Message { qos, ..self }
    }

    /// The same message with the retain flag set as given.
    pub fn with_retain(self, retained: bool) -> (m: Message)
        ensures
            m@ == (MessageView { retained, ..self@ }),
    {
        Message { retained, ..self }
    }

    /// The topic this message was published under.
    pub fn topic(&self) -> (t: &str)
        ensures
            t@ == self@.topic,
    {
        self.topic.as_str()
    }

    /// The payload bytes, exactly as constructed.
    pub fn payload(&self) -> (p: &[u8])
        ensures
            p@ == self@.payload,
    {
        self.payload.as_slice()
    }

    /// The delivery level.
    pub fn qos(&self) -> (q: QoS)
        ensures
            q == self@.qos,
    {
        self.qos
    }

    /// Whether the broker was (or is to be) asked to retain the message.
    pub fn is_retained(&self) -> (r: bool)
        ensures
            r == self@.retained,
    {
        self.retained
    }
}

/// Payload round trip: a message constructed from any byte sequence holds
/// exactly that sequence — no truncation and no corruption at any length —
/// and the topic likewise.
pub proof fn lemma_message_round_trip(topic: Seq<char>, payload: Seq<u8>)
    ensures
        Message::spec_new(topic, payload).payload == payload,
        Message::spec_new(topic, payload).topic == topic,
{
}

} // verus!
