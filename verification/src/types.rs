//! Protocol value types: delivery quality levels and session states,
//! with their mappings to and from the engine's integer codes.

use vstd::prelude::*;

verus! {

/// Quality-of-service level of a message, as the wire protocol defines it.
#[derive(Clone, Copy, Debug, PartialEq, Eq, Structural)]
pub enum QoS {
    AtMostOnce,
    AtLeastOnce,
    ExactlyOnce,
}

impl QoS {
    /// The small-integer code this level travels as on the wire.
    pub open spec fn spec_wire_code(self) -> i32 {
        match self {
            QoS::AtMostOnce => 0,
            QoS::AtLeastOnce => 1,
            QoS::ExactlyOnce => 2,
        }
    }

    /// What decoding a wire code yields: only the three defined codes
    /// decode at all; every other code is a hard failure.
    pub open spec fn spec_from_wire(code: i32) -> Option<QoS> {
        if code == 0 {
            Some(QoS::AtMostOnce)
        } else if code == 1 {
            Some(QoS::AtLeastOnce)
        } else if code == 2 {
            Some(QoS::ExactlyOnce)
        } else {
            None
        }
    }

    /// Encode this level as its wire code.
    pub fn wire_code(self) -> (code: i32)
        ensures
            code == self.spec_wire_code(),
    {
        match self {
            QoS::AtMostOnce => 0,
            QoS::AtLeastOnce => 1,
            QoS::ExactlyOnce => 2,
        }
    }

    /// Decode a wire code; an unrecognized code is never coerced to a
    /// level, it is a decode failure.
    pub fn from_wire(code: i32) -> (r: Option<QoS>)
        ensures
            r == QoS::spec_from_wire(code),
    {
        match code {
            0 => Some(QoS::AtMostOnce),
            1 => Some(QoS::AtLeastOnce),
            2 => Some(QoS::ExactlyOnce),
            _ => None,
        }
    }
}

/// Round trip of the quality-of-service wire mapping: encoding any level
/// and decoding it again yields the original level; decoding succeeds on
/// exactly the codes 0, 1 and 2; and whatever decodes re-encodes to the
/// code it came from.
pub proof fn lemma_qos_wire_round_trip(q: QoS, code: i32)
    ensures
        QoS::spec_from_wire(q.spec_wire_code()) == Some(q),
        QoS::spec_from_wire(code) is Some <==> (code == 0 || code == 1 || code == 2),
        QoS::spec_from_wire(code) matches Some(p) ==> p.spec_wire_code() == code,
{
}

/// Connection state of a session as the engine reports it. Values are
/// produced only from engine state codes and are immutable once made.
/// A code outside the known set maps to `Unknown` rather than being
/// dropped, so that no state report is ever lost silently.
#[derive(Clone, Copy, Debug, PartialEq, Eq, Structural)]
pub enum ConnectionState {
    Disconnected,
    Connecting,
    Connected,
    Error,
    Unknown,
}

/// What each engine state code means; every unassigned code is `Unknown`.
pub open spec fn spec_state_from_code(code: i32) -> ConnectionState {
    if code == 0 {
        ConnectionState::Disconnected
    } else if code == 1 {
        ConnectionState::Connecting
    } else if code == 2 {
        ConnectionState::Connected
    } else if code == 3 {
        ConnectionState::Error
    } else {
        ConnectionState::Unknown
    }
}

/// Map an engine state code to a session state; never fails.
pub fn state_from_code(code: i32) -> (s: ConnectionState)
    ensures
        s == spec_state_from_code(code),
{
    match code {
        0 => ConnectionState::Disconnected,
        1 => ConnectionState::Connecting,
        2 => ConnectionState::Connected,
        3 => ConnectionState::Error,
        _ => ConnectionState::Unknown,
    }
}

} // verus!
