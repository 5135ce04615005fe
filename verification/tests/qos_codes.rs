use polar_mqtt::types::{state_from_code, ConnectionState, QoS};

#[test]
fn qos_round_trips_for_every_valid_code() {
    for code in 0..=2 {
        let qos = QoS::from_wire(code).expect("codes 0..=2 must decode");
        assert_eq!(qos.wire_code(), code);
    }
    assert_eq!(QoS::from_wire(0), Some(QoS::AtMostOnce));
    assert_eq!(QoS::from_wire(1), Some(QoS::AtLeastOnce));
    assert_eq!(QoS::from_wire(2), Some(QoS::ExactlyOnce));
}

#[test]
fn qos_levels_encode_to_their_own_codes() {
    assert_eq!(QoS::AtMostOnce.wire_code(), 0);
    assert_eq!(QoS::AtLeastOnce.wire_code(), 1);
    assert_eq!(QoS::ExactlyOnce.wire_code(), 2);
    assert_eq!(QoS::from_wire(QoS::AtMostOnce.wire_code()), Some(QoS::AtMostOnce));
    assert_eq!(QoS::from_wire(QoS::AtLeastOnce.wire_code()), Some(QoS::AtLeastOnce));
    assert_eq!(QoS::from_wire(QoS::ExactlyOnce.wire_code()), Some(QoS::ExactlyOnce));
}

#[test]
fn unrecognized_qos_codes_fail_decode() {
    for code in [-1, 3, 4, 9, 255, i32::MIN, i32::MAX] {
        assert_eq!(QoS::from_wire(code), None);
    }
}

#[test]
fn state_codes_map_to_their_states() {
    assert_eq!(state_from_code(0), ConnectionState::Disconnected);
    assert_eq!(state_from_code(1), ConnectionState::Connecting);
    assert_eq!(state_from_code(2), ConnectionState::Connected);
    assert_eq!(state_from_code(3), ConnectionState::Error);
}

#[test]
fn unassigned_state_codes_map_to_unknown() {
    for code in [-1, 4, 17, i32::MAX] {
        assert_eq!(state_from_code(code), ConnectionState::Unknown);
    }
}
