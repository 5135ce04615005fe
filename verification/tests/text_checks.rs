use polar_mqtt::text::{check_text, text_accepted};
use polar_mqtt::Error;

#[test]
fn plain_text_is_accepted() {
    assert!(text_accepted("M1"));
    assert!(text_accepted(""));
    assert!(text_accepted("test.mosquitto.org"));
    assert!(check_text("sensors/#").is_ok());
}

#[test]
fn embedded_null_byte_is_invalid_argument() {
    assert!(!text_accepted("a\0b"));
    assert_eq!(check_text("a\0b"), Err(Error::InvalidArgument));
    assert_eq!(check_text("\0"), Err(Error::InvalidArgument));
    assert_eq!(check_text("trailing\0"), Err(Error::InvalidArgument));
}

#[test]
fn multibyte_text_without_null_is_accepted() {
    assert!(text_accepted("température/°C"));
}
