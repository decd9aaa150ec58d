use ble_remote::config::CHARACTERISTIC_UUID;
use ble_remote::payload::{decode_payload, notification_code_of, parse_code};

#[test]
fn payload_with_newline_is_read() {
    assert_eq!(decode_payload(b"300\n"), Some(300));
}

#[test]
fn payload_without_white_space_is_read() {
    assert_eq!(decode_payload(b"999"), Some(999));
}

#[test]
fn signs_and_surrounding_space_are_accepted() {
    assert_eq!(decode_payload(b"  +42\t"), Some(42));
    assert_eq!(decode_payload(b"-7"), Some(-7));
    assert_eq!(decode_payload(b"\r\n150\r\n"), Some(150));
}

#[test]
fn unicode_white_space_is_trimmed() {
    assert_eq!(parse_code("\u{3000}12\u{a0}"), Some(12));
    assert_eq!(parse_code("\u{2009}350\u{85}"), Some(350));
}

#[test]
fn invalid_utf8_is_ignored() {
    assert_eq!(decode_payload(&[0xff, 0x33, 0x30, 0x30]), None);
    assert_eq!(decode_payload(&[0x33, 0xc3]), None);
    assert_eq!(decode_payload(&[0xed, 0xa0, 0x80]), None);
}

#[test]
fn non_numeric_text_is_ignored() {
    assert_eq!(decode_payload(b""), None);
    assert_eq!(decode_payload(b"   "), None);
    assert_eq!(decode_payload(b"abc"), None);
    assert_eq!(decode_payload(b"-"), None);
    assert_eq!(decode_payload(b"+"), None);
    assert_eq!(decode_payload(b"3 00"), None);
    assert_eq!(decode_payload(b"0x10"), None);
    assert_eq!(decode_payload(b"300a"), None);
}

#[test]
fn values_beyond_i32_are_ignored() {
    assert_eq!(decode_payload(b"2147483647"), Some(i32::MAX));
    assert_eq!(decode_payload(b"-2147483648"), Some(i32::MIN));
    assert_eq!(decode_payload(b"2147483648"), None);
    assert_eq!(decode_payload(b"-2147483649"), None);
}

#[test]
fn other_characteristics_are_ignored() {
    assert_eq!(notification_code_of(CHARACTERISTIC_UUID, b"300"), Some(300));
    assert_eq!(notification_code_of(CHARACTERISTIC_UUID ^ 1, b"300"), None);
    assert_eq!(notification_code_of(0, b"100"), None);
}
