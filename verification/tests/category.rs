use kime_indicator::category::EXIT_BYTE;
use kime_indicator::InputCategory;

#[test]
fn round_trip_latin() {
    let byte = InputCategory::Latin.encode();
    assert_eq!(InputCategory::decode(byte), InputCategory::Latin);
}

#[test]
fn round_trip_hangul() {
    let byte = InputCategory::Hangul.encode();
    assert_eq!(InputCategory::decode(byte), InputCategory::Hangul);
}

#[test]
fn encodings_are_stable() {
    assert_eq!(InputCategory::Latin.encode(), 0);
    assert_eq!(InputCategory::Hangul.encode(), 1);
}

#[test]
fn unknown_bytes_decode_to_latin() {
    assert_eq!(InputCategory::decode(2), InputCategory::Latin);
    assert_eq!(InputCategory::decode(0x7f), InputCategory::Latin);
    assert_eq!(InputCategory::decode(0xff), InputCategory::Latin);
}

#[test]
fn exit_byte_is_ascii_z() {
    assert_eq!(EXIT_BYTE, b'Z');
}

#[test]
fn exit_byte_collides_with_no_encoding() {
    assert_ne!(InputCategory::Latin.encode(), EXIT_BYTE);
    assert_ne!(InputCategory::Hangul.encode(), EXIT_BYTE);
}
