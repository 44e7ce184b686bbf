use svm_agreement_registry::utils::ed25519;
use svm_agreement_registry::utils::offchain_message::{
    format_message, KeyValuePair, HEADER_VERSION, MAX_PAIRS, MAX_SERIALIZED_SIZE, MAX_TEXT_SIZE,
    MESSAGE_FORMAT, SIGNING_DOMAIN,
};

fn pair(key: &str, value: &str) -> KeyValuePair {
    KeyValuePair { key: key.to_string(), value: value.to_string() }
}

#[test]
fn signing_domain_is_the_off_chain_one() {
    assert_eq!(&SIGNING_DOMAIN, b"\xffsolana offchain");
    assert_eq!(HEADER_VERSION, 0);
    assert_eq!(MESSAGE_FORMAT, 0);
}

#[test]
fn format_message_of_no_pairs() {
    let message = format_message(&vec![]).unwrap();
    let mut expected = b"\xffsolana offchain".to_vec();
    expected.extend_from_slice(&[0, 0, 4, 0, 0, 0, 0, 0]);
    assert_eq!(message, expected);
}

#[test]
fn format_message_of_two_pairs() {
    let message = format_message(&vec![pair("name", "Alice"), pair("age", "30")]).unwrap();
    let mut expected = b"\xffsolana offchain".to_vec();
    expected.extend_from_slice(&[0, 0, 34, 0]);
    expected.extend_from_slice(&[2, 0, 0, 0]);
    expected.extend_from_slice(&[4, 0, 0, 0]);
    expected.extend_from_slice(b"name");
    expected.extend_from_slice(&[5, 0, 0, 0]);
    expected.extend_from_slice(b"Alice");
    expected.extend_from_slice(&[3, 0, 0, 0]);
    expected.extend_from_slice(b"age");
    expected.extend_from_slice(&[2, 0, 0, 0]);
    expected.extend_from_slice(b"30");
    assert_eq!(message, expected);
}

#[test]
fn format_message_counts_bytes_not_characters() {
    let message = format_message(&vec![pair("clé", "€")]).unwrap();
    let mut expected = b"\xffsolana offchain".to_vec();
    expected.extend_from_slice(&[0, 0, 19, 0]);
    expected.extend_from_slice(&[1, 0, 0, 0]);
    expected.extend_from_slice(&[4, 0, 0, 0]);
    expected.extend_from_slice(&[0x63, 0x6c, 0xc3, 0xa9]);
    expected.extend_from_slice(&[3, 0, 0, 0]);
    expected.extend_from_slice(&[0xe2, 0x82, 0xac]);
    assert_eq!(message, expected);
}

#[test]
fn format_message_keeps_empty_keys_and_values() {
    let message = format_message(&vec![pair("", "")]).unwrap();
    let mut expected = b"\xffsolana offchain".to_vec();
    expected.extend_from_slice(&[0, 0, 12, 0]);
    expected.extend_from_slice(&[1, 0, 0, 0, 0, 0, 0, 0, 0, 0, 0, 0]);
    assert_eq!(message, expected);
}

#[test]
fn format_message_keeps_the_order_of_the_pairs() {
    let forward = format_message(&vec![pair("a", "1"), pair("b", "2")]).unwrap();
    let backward = format_message(&vec![pair("b", "2"), pair("a", "1")]).unwrap();
    assert_ne!(forward, backward);
    assert_eq!(forward.len(), backward.len());
}

#[test]
fn format_message_tells_key_from_value() {
    let one = format_message(&vec![pair("ab", "c")]).unwrap();
    let other = format_message(&vec![pair("a", "bc")]).unwrap();
    assert_ne!(one, other);
}

#[test]
fn format_message_is_the_same_on_every_call() {
    let kv_pairs = vec![pair("name", "Alice"), pair("age", "30")];
    let first = format_message(&kv_pairs).unwrap();
    let second = format_message(&kv_pairs).unwrap();
    let third = format_message(&kv_pairs.clone()).unwrap();
    assert_eq!(first, second);
    assert_eq!(first, third);
}

#[test]
fn format_message_of_the_largest_stored_agreement() {
    let key = "k".repeat(MAX_TEXT_SIZE);
    let value = "v".repeat(MAX_TEXT_SIZE);
    let kv_pairs: Vec<KeyValuePair> = (0..MAX_PAIRS).map(|_| pair(&key, &value)).collect();
    let message = format_message(&kv_pairs).unwrap();
    assert_eq!(MAX_SERIALIZED_SIZE, 2704);
    assert_eq!(message.len(), 20 + 2704);
    assert_eq!(message[18..20], [0x90, 0x0a]);
    assert_eq!(message[20..24], [25, 0, 0, 0]);
    assert_eq!(message[24..28], [50, 0, 0, 0]);
}

#[test]
fn format_message_length_field_wraps_at_65536() {
    let value = "x".repeat(70_000);
    let message = format_message(&vec![pair("k", &value)]).unwrap();
    let body = 4 + 4 + 1 + 4 + 70_000;
    assert_eq!(message.len(), 20 + body);
    let wrapped = (body % 65_536) as u16;
    assert_eq!(wrapped, 4_477);
    assert_eq!(message[18..20], wrapped.to_le_bytes());
    assert_eq!(message[29..33], 70_000u32.to_le_bytes());
}

#[test]
fn format_message_is_shared_with_the_ed25519_module() {
    let kv_pairs = vec![ed25519::KeyValuePair { key: "k".to_string(), value: "v".to_string() }];
    assert_eq!(ed25519::format_message(&kv_pairs), format_message(&kv_pairs));
}
