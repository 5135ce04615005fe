use polar_mqtt::inbound::{decode_inbound, payload_length_acceptable};
use polar_mqtt::session::SessionLifecycle;
use polar_mqtt::text::check_text;
use polar_mqtt::{Message, QoS};

/// Drive one simulated trampoline call the way the boundary code does:
/// decode the raw delivery, and invoke the callback exactly when a
/// message was constructed and the engine still holds its token share.
fn simulate_delivery(
    lifecycle: &mut SessionLifecycle,
    log: &mut Vec<Message>,
    topic: &str,
    payload: Option<Vec<u8>>,
    qos_code: i32,
    retained: i32,
) {
    if let Some(message) = decode_inbound(String::from(topic), payload, qos_code, retained) {
        if lifecycle.trampoline_dispatch() {
            log.push(message);
        }
    }
}

fn live_lifecycle() -> SessionLifecycle {
    let mut lifecycle = SessionLifecycle::begin();
    lifecycle.hand_token_to_engine();
    lifecycle.session_created(true).expect("engine accepted");
    lifecycle
}

#[test]
fn recognized_delivery_invokes_callback_exactly_once() {
    assert!(check_text("M1").is_ok());
    let mut lifecycle = live_lifecycle();
    let mut log: Vec<Message> = Vec::new();

    simulate_delivery(&mut lifecycle, &mut log, "t/1", Some(vec![0x41, 0x42]), 1, 0);

    assert_eq!(log.len(), 1);
    assert_eq!(log[0].topic(), "t/1");
    assert_eq!(log[0].payload(), &[0x41, 0x42]);
    assert_eq!(log[0].qos(), QoS::AtLeastOnce);
    assert!(!log[0].is_retained());
}

#[test]
fn null_payload_delivers_an_empty_message_not_an_error() {
    let mut lifecycle = live_lifecycle();
    let mut log: Vec<Message> = Vec::new();

    simulate_delivery(&mut lifecycle, &mut log, "t/empty", None, 0, 0);

    assert_eq!(log.len(), 1);
    assert_eq!(log[0].payload(), &[] as &[u8]);
    assert_eq!(log[0].qos(), QoS::AtMostOnce);
}

#[test]
fn unrecognized_qos_code_invokes_no_callback() {
    let mut lifecycle = live_lifecycle();
    let mut log: Vec<Message> = Vec::new();

    simulate_delivery(&mut lifecycle, &mut log, "t/bad", Some(vec![1, 2, 3]), 9, 0);

    assert_eq!(log.len(), 0);
}

#[test]
fn decode_keeps_every_field_of_a_retained_delivery() {
    let message = decode_inbound(String::from("a/b"), Some(vec![7]), 2, 5).expect("valid code");
    assert_eq!(message.topic(), "a/b");
    assert_eq!(message.payload(), &[7]);
    assert_eq!(message.qos(), QoS::ExactlyOnce);
    assert!(message.is_retained());
}

#[test]
fn trampoline_dispatch_preserves_the_share_count() {
    let mut lifecycle = live_lifecycle();
    assert_eq!(lifecycle.context_shares(), 2);
    assert!(lifecycle.trampoline_dispatch());
    assert_eq!(lifecycle.context_shares(), 2);
    assert!(lifecycle.trampoline_dispatch());
    assert_eq!(lifecycle.context_shares(), 2);
}

#[test]
fn payload_ceiling_is_the_platform_limit() {
    assert!(payload_length_acceptable(0));
    assert!(payload_length_acceptable(4096));
    assert!(payload_length_acceptable(isize::MAX as usize));
    assert!(!payload_length_acceptable(isize::MAX as usize + 1));
}
