use polar_mqtt::{Message, QoS};

#[test]
fn payload_round_trips_at_every_small_length() {
    for len in 0..=32usize {
        let payload: Vec<u8> = (0..len).map(|i| (i * 7 + 3) as u8).collect();
        let message = Message::new(String::from("sensor/data"), payload.clone());
        assert_eq!(message.payload(), payload.as_slice());
    }
}

#[test]
fn new_message_holds_its_parts_and_defaults() {
    let message = Message::new(String::from("t/a"), vec![1, 2, 3]);
    assert_eq!(message.topic(), "t/a");
    assert_eq!(message.payload(), &[1, 2, 3]);
    assert_eq!(message.qos(), QoS::AtMostOnce);
    assert!(!message.is_retained());
}

#[test]
fn with_qos_changes_only_the_level() {
    let message = Message::new(String::from("t/b"), vec![9]).with_qos(QoS::ExactlyOnce);
    assert_eq!(message.qos(), QoS::ExactlyOnce);
    assert_eq!(message.topic(), "t/b");
    assert_eq!(message.payload(), &[9]);
    assert!(!message.is_retained());
}

#[test]
fn with_retain_changes_only_the_flag() {
    let message = Message::new(String::from("t/c"), vec![]).with_retain(true);
    assert!(message.is_retained());
    assert_eq!(message.qos(), QoS::AtMostOnce);
    assert_eq!(message.topic(), "t/c");
    assert_eq!(message.payload(), &[] as &[u8]);
}

#[test]
fn empty_payload_round_trips() {
    let message = Message::new(String::from("t"), Vec::new());
    assert_eq!(message.payload().len(), 0);
}
