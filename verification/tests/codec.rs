use crab_chat_peer::{DecodeError, Message};

#[test]
fn roundtrip_preserves_all_fields() {
    let m = Message::new("hello overlay".to_string(), 1_700_000_000, "general".to_string());
    let bytes = m.serialize_to_bytes();
    let back = Message::deserialize_from_bytes(&bytes).expect("own encoding must decode");
    assert_eq!(back.data(), "hello overlay");
    assert_eq!(*back.timestamp(), 1_700_000_000);
    assert_eq!(back.topic(), "general");
}

#[test]
fn roundtrip_preserves_empty_fields() {
    let m = Message::new(String::new(), 0, String::new());
    let bytes = m.serialize_to_bytes();
    let back = Message::deserialize_from_bytes(&bytes).expect("empty fields are fine");
    assert_eq!(back.data(), "");
    assert_eq!(*back.timestamp(), 0);
    assert_eq!(back.topic(), "");
}

#[test]
fn roundtrip_preserves_non_ascii_text() {
    let m = Message::new("héllo — мир 🌍".to_string(), u64::MAX, "köln".to_string());
    let bytes = m.serialize_to_bytes();
    let back = Message::deserialize_from_bytes(&bytes).expect("non-ascii survives");
    assert_eq!(back.data(), "héllo — мир 🌍");
    assert_eq!(*back.timestamp(), u64::MAX);
    assert_eq!(back.topic(), "köln");
}

#[test]
fn wire_layout_is_timestamp_length_topic_data() {
    let m = Message::new("hi".to_string(), 7, "ab".to_string());
    let bytes = m.serialize_to_bytes();
    let mut expected = vec![7u8, 0, 0, 0, 0, 0, 0, 0];
    expected.extend_from_slice(&[2u8, 0, 0, 0, 0, 0, 0, 0]);
    expected.extend_from_slice(b"ab");
    expected.extend_from_slice(b"hi");
    assert_eq!(bytes, expected);
}

#[test]
fn short_payload_is_truncated() {
    let r = Message::deserialize_from_bytes(&[1, 2, 3]);
    assert_eq!(r.unwrap_err(), DecodeError::Truncated);
}

#[test]
fn topic_length_past_end_is_truncated() {
    let mut bytes = vec![0u8; 8];
    bytes.extend_from_slice(&[200u8, 0, 0, 0, 0, 0, 0, 0]);
    bytes.extend_from_slice(b"short");
    let r = Message::deserialize_from_bytes(&bytes);
    assert_eq!(r.unwrap_err(), DecodeError::Truncated);
}

#[test]
fn invalid_utf8_topic_is_rejected() {
    let mut bytes = vec![0u8; 8];
    bytes.extend_from_slice(&[2u8, 0, 0, 0, 0, 0, 0, 0]);
    bytes.extend_from_slice(&[0xff, 0xfe]);
    let r = Message::deserialize_from_bytes(&bytes);
    assert_eq!(r.unwrap_err(), DecodeError::InvalidUtf8);
}

#[test]
fn invalid_utf8_data_is_rejected() {
    let m = Message::new(String::new(), 3, "t".to_string());
    let mut bytes = m.serialize_to_bytes();
    bytes.push(0xc0);
    let r = Message::deserialize_from_bytes(&bytes);
    assert_eq!(r.unwrap_err(), DecodeError::InvalidUtf8);
}

#[test]
fn empty_payload_is_truncated() {
    let r = Message::deserialize_from_bytes(&[]);
    assert_eq!(r.unwrap_err(), DecodeError::Truncated);
}
