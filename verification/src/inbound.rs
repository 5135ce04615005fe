//! Translation of one inbound engine delivery into an owned message.
//!
//! The engine hands a trampoline raw buffers and integer codes; this
//! module decides, over the copied-out values, whether the delivery
//! becomes a message for the user callback or is discarded. Defensive
//! rules, in order: a missing or empty payload becomes the empty byte
//! sequence (an ordinary message, not an error); an unrecognized
//! quality-of-service code discards the delivery entirely, since no
//! level may be guessed.

use vstd::prelude::*;
use crate::message::{Message, MessageView};
use crate::types::QoS;

verus! {

/// The payload an inbound delivery carries: the engine's bytes when a
/// buffer was present, the empty sequence when it was null or empty.
pub open spec fn spec_inbound_payload(payload: Option<Seq<u8>>) -> Seq<u8> {
    match payload {
        Some(p) => p,
        None => Seq::empty(),
    }
}

/// What one inbound delivery decodes to: a message with the given topic,
/// the carried payload and the decoded level — or nothing at all, exactly
/// when the quality-of-service code is unrecognized.
pub open spec fn spec_decode_inbound(
    topic: Seq<char>,
    payload: Option<Seq<u8>>,
    qos_code: i32,
    retained: i32,
) -> Option<MessageView> {
    match QoS::spec_from_wire(qos_code) {
        Some(qos) => Some(
            MessageView {
                topic,
                payload: spec_inbound_payload(payload),
                qos,
                retained: retained != 0,
            },
        ),
        None => None,
    }
}

/// Build the owned message one engine delivery becomes, after the raw
/// buffers have been copied out. `None` for the payload stands for a null
/// or empty engine buffer and yields a message with an empty payload;
/// an unrecognized quality-of-service code yields no message, so the user
/// callback is not invoked for it.
pub fn decode_inbound(topic: String, payload: Option<Vec<u8>>, qos_code: i32, retained: i32) -> (r:
    Option<Message>)
    ensures
        r is Some <==> spec_decode_inbound(
            topic@,
            match payload {
                Some(p) => Some(p@),
                None => None,
            },
            qos_code,
            retained,
        ) is Some,
        r matches Some(m) ==> Some(m@) == spec_decode_inbound(
            topic@,
            match payload {
                Some(p) => Some(p@),
                None => None,
            },
            qos_code,
            retained,
        ),
{
    let ghost topic0: Seq<char> = topic@;
    let ghost payload0: Option<Seq<u8>> = match &payload {
        Some(p) => Some(p@),
        None => None,
    };
    let qos = match QoS::from_wire(qos_code) {
        Some(q) => q,
        None => {
            return None;
        },
    };
    let bytes: Vec<u8> = match payload {
        Some(p) => p,
        None => Vec::new(),
    };
    proof {
        assert(bytes@ =~= spec_inbound_payload(payload0));
    }
    let m = Message::assemble(topic, bytes, qos, retained != 0);
    proof {
        assert(spec_decode_inbound(topic0, payload0, qos_code, retained)->Some_0 =~= m@);
    }
    Some(m)
}

/// Whether an inbound payload length is within the platform's
/// representable byte-count ceiling. A length beyond it is treated as
/// corrupt input and the delivery is discarded before any copy is made.
pub fn payload_length_acceptable(len: usize) -> (ok: bool)
    ensures
        ok == (len <= isize::MAX as usize),
{
    len <= isize::MAX as usize
}

} // verus!
