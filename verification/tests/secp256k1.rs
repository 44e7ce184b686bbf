#![allow(deprecated)]

use svm_agreement_registry::utils::instructions::Instruction;
use svm_agreement_registry::utils::offchain_message::KeyValuePair;
use svm_agreement_registry::utils::secp256k1::{
    domain_separator, format_message, hash_key_value_pair, hash_key_value_pairs,
    hash_signature_data, verify_instruction, ErrorCode, Secp256k1InstructionLayout, CHAIN_ID,
    DOMAIN_TYPE, KEY_VALUE_PAIR_TYPE, LAYOUT_SIZE, NAME, SIGNATURE_DATA_TYPE, VERIFYING_CONTRACT,
    VERSION,
};
use svm_agreement_registry::{checked_entry_eth, padded_address, DataEntry};

const SECP256K1_PROGRAM: [u8; 32] = [
    0x04, 0xc6, 0xfc, 0x20, 0xf0, 0x50, 0xcc, 0xf0, 0x55, 0x84, 0xd7, 0x21, 0x1c, 0x9f, 0x8c, 0xf5,
    0x9e, 0xc1, 0x47, 0x85, 0xbb, 0x16, 0x6a, 0x1e, 0x28, 0x30, 0xe8, 0x12, 0x20, 0x00, 0x00, 0x00,
];

const DOMAIN_SEPARATOR: [u8; 32] = [
    0x24, 0x49, 0xd9, 0xcb, 0x31, 0xbe, 0xe2, 0x3a, 0x0b, 0xc0, 0x7d, 0xb8, 0x84, 0xe7, 0x44, 0xda,
    0x4f, 0xdb, 0x3d, 0x66, 0x14, 0xe0, 0x81, 0x1a, 0x30, 0xfb, 0x96, 0xd3, 0xb8, 0x74, 0xa4, 0xf4,
];

fn pair(key: &str, value: &str) -> KeyValuePair {
    KeyValuePair { key: key.to_string(), value: value.to_string() }
}

fn alice() -> Vec<KeyValuePair> {
    vec![pair("name", "Alice"), pair("age", "30")]
}

fn address() -> [u8; 20] {
    let mut bytes = [0u8; 20];
    for (i, byte) in bytes.iter_mut().enumerate() {
        *byte = 0x20 + i as u8;
    }
    bytes
}

fn signature() -> [u8; 64] {
    let mut bytes = [0u8; 64];
    for (i, byte) in bytes.iter_mut().enumerate() {
        *byte = 0x80 + i as u8;
    }
    bytes
}

/// Instruction data with address, signature and recovery id in the header and
/// the message directly behind it.
fn proof_data(address: &[u8; 20], signature: &[u8; 64], recovery_id: u8, message: &[u8]) -> Vec<u8> {
    let mut data = vec![1u8];
    data.extend_from_slice(&32u16.to_le_bytes());
    data.push(0);
    data.extend_from_slice(&12u16.to_le_bytes());
    data.push(0);
    data.extend_from_slice(&97u16.to_le_bytes());
    data.extend_from_slice(&(message.len() as u16).to_le_bytes());
    data.push(0);
    data.extend_from_slice(address);
    data.extend_from_slice(signature);
    data.push(recovery_id);
    data.extend_from_slice(message);
    data
}

fn proof_of(message: &[u8]) -> Instruction {
    Instruction {
        program_id: SECP256K1_PROGRAM,
        data: proof_data(&address(), &signature(), 0, message),
    }
}

fn verdict(instruction: &Instruction, message: &[u8]) -> Result<(), ErrorCode> {
    verify_instruction(instruction, &address(), &signature(), message)
}

#[test]
fn signing_domain_is_that_of_the_registry() {
    assert_eq!(
        DOMAIN_TYPE,
        "EIP712Domain(string name,string version,uint256 chainId,address verifyingContract)"
    );
    assert_eq!(NAME, "CyberAgreementRegistry");
    assert_eq!(VERSION, "1");
    assert_eq!(CHAIN_ID, 1);
    assert_eq!(
        VERIFYING_CONTRACT,
        [
            0xa9, 0xe8, 0x08, 0xb8, 0xec, 0xbb, 0x60, 0xbb, 0x19, 0xab, 0xf0, 0x26, 0xb5, 0xb8,
            0x63, 0x21, 0x5b, 0xc4, 0xc1, 0x34
        ]
    );
    assert_eq!(
        SIGNATURE_DATA_TYPE,
        "SignatureData(KeyValuePair[] kvPairs)KeyValuePair(string key,string value)"
    );
    assert_eq!(KEY_VALUE_PAIR_TYPE, "KeyValuePair(string key,string value)");
}

#[test]
fn domain_separator_has_its_known_value() {
    assert_eq!(domain_separator(), DOMAIN_SEPARATOR);
}

#[test]
fn domain_separator_is_constant() {
    let first = domain_separator();
    let second = domain_separator();
    assert_eq!(first, second);
    let with_pairs = format_message(&alice()).unwrap();
    let without = format_message(&vec![]).unwrap();
    assert_eq!(with_pairs[2..34], first);
    assert_eq!(without[2..34], first);
}

#[test]
fn hash_key_value_pair_has_its_known_value() {
    assert_eq!(
        hash_key_value_pair(&pair("name", "Alice")),
        [
            0x4e, 0xda, 0x96, 0x19, 0xf8, 0x64, 0x73, 0x70, 0x9d, 0xc4, 0x84, 0x0e, 0x56, 0x3b,
            0xf9, 0x69, 0x7b, 0x92, 0xde, 0x72, 0x17, 0x1f, 0xdd, 0xba, 0x65, 0xbe, 0x15, 0x25,
            0x65, 0x69, 0x6a, 0xb1
        ]
    );
}

#[test]
fn hash_key_value_pair_hashes_the_utf8_bytes() {
    assert_eq!(
        hash_key_value_pair(&pair("clé", "värde €")),
        [
            0x0a, 0x46, 0x52, 0x37, 0x9f, 0x1e, 0x37, 0xed, 0x7c, 0xfb, 0x85, 0x49, 0x70, 0x95,
            0x9e, 0x1b, 0xd7, 0x80, 0xf6, 0x67, 0x69, 0x76, 0x40, 0x3d, 0x2c, 0x14, 0xa9, 0x6d,
            0x26, 0xc0, 0x63, 0x14
        ]
    );
}

#[test]
fn hash_key_value_pairs_has_its_known_values() {
    assert_eq!(
        hash_key_value_pairs(&alice()),
        [
            0x17, 0x9c, 0xb6, 0xb9, 0x29, 0x0d, 0xe6, 0xbc, 0x1b, 0x7e, 0xaa, 0x3b, 0x22, 0xac,
            0xb0, 0xf7, 0x01, 0xcd, 0x41, 0x92, 0x3d, 0x05, 0xa0, 0xbf, 0x90, 0xd9, 0xd1, 0xa2,
            0x52, 0x1a, 0x13, 0xf9
        ]
    );
    assert_eq!(
        hash_key_value_pairs(&vec![]),
        [
            0xc5, 0xd2, 0x46, 0x01, 0x86, 0xf7, 0x23, 0x3c, 0x92, 0x7e, 0x7d, 0xb2, 0xdc, 0xc7,
            0x03, 0xc0, 0xe5, 0x00, 0xb6, 0x53, 0xca, 0x82, 0x27, 0x3b, 0x7b, 0xfa, 0xd8, 0x04,
            0x5d, 0x85, 0xa4, 0x70
        ]
    );
}

#[test]
fn hash_signature_data_has_its_known_values() {
    assert_eq!(
        hash_signature_data(&alice()),
        [
            0x75, 0x4f, 0x7a, 0x70, 0x70, 0x08, 0x0e, 0xf3, 0xe8, 0x64, 0x43, 0xed, 0x03, 0x63,
            0x5a, 0x63, 0x3e, 0xbb, 0xcf, 0x2c, 0xca, 0x15, 0x47, 0xc1, 0xaf, 0x38, 0x34, 0xcc,
            0xb5, 0x07, 0x77, 0x2c
        ]
    );
    assert_eq!(
        hash_signature_data(&vec![]),
        [
            0x2c, 0xae, 0x39, 0x78, 0x6b, 0x46, 0xb7, 0x06, 0x1d, 0xb9, 0x83, 0x88, 0x48, 0xfa,
            0x8e, 0xd4, 0xd1, 0x6d, 0x9b, 0xe8, 0x76, 0x59, 0xc6, 0xe0, 0x80, 0x3c, 0x8e, 0x9d,
            0x09, 0xf1, 0xaf, 0xfd
        ]
    );
}

#[test]
fn typed_data_message_is_prefix_separator_and_hash() {
    let message = format_message(&alice()).unwrap();
    assert_eq!(message.len(), 66);
    assert_eq!(message[..2], [0x19, 0x01]);
    assert_eq!(message[2..34], DOMAIN_SEPARATOR);
    assert_eq!(message[34..], hash_signature_data(&alice()));
}

#[test]
fn typed_data_message_is_the_same_on_every_call() {
    assert_eq!(format_message(&alice()), format_message(&alice()));
}

#[test]
fn typed_data_message_follows_the_pairs() {
    let mut swapped = alice();
    swapped.swap(0, 1);
    assert_ne!(format_message(&alice()), format_message(&swapped));
    assert_ne!(format_message(&alice()), format_message(&vec![]));
    assert_ne!(
        format_message(&vec![pair("ab", "c")]),
        format_message(&vec![pair("a", "bc")])
    );
}

#[test]
fn secp256k1_layout_is_read_field_by_field() {
    let data: Vec<u8> = (1..=100).collect();
    let layout = Secp256k1InstructionLayout::decode(&data).unwrap();
    let mut eth_address = [0u8; 20];
    eth_address.copy_from_slice(&data[12..32]);
    let mut signature = [0u8; 64];
    signature.copy_from_slice(&data[32..96]);
    assert_eq!(
        layout,
        Secp256k1InstructionLayout {
            num_signatures: 1,
            signature_offset: 0x0302,
            signature_instruction_index: 4,
            eth_address_offset: 0x0605,
            eth_address_instruction_index: 7,
            message_data_offset: 0x0908,
            message_data_size: 0x0b0a,
            message_instruction_index: 12,
            eth_address,
            signature,
            recovery_id: 97,
        }
    );
}

#[test]
fn secp256k1_layout_needs_97_bytes() {
    assert_eq!(LAYOUT_SIZE, 97);
    let data = [1u8; 97];
    assert!(Secp256k1InstructionLayout::decode(&data).is_ok());
    assert_eq!(
        Secp256k1InstructionLayout::decode(&data[..96]),
        Err(ErrorCode::MalformedSecp256k1Instruction)
    );
    assert_eq!(
        Secp256k1InstructionLayout::decode(&[]),
        Err(ErrorCode::MalformedSecp256k1Instruction)
    );
}

#[test]
fn secp256k1_instruction_that_matches_is_accepted() {
    assert_eq!(verdict(&proof_of(b"agreed"), b"agreed"), Ok(()));
    assert_eq!(verdict(&proof_of(b""), b""), Ok(()));
}

#[test]
fn secp256k1_instruction_of_another_program_is_refused_first() {
    let mut instruction = proof_of(b"agreed");
    instruction.program_id[0] ^= 0x80;
    assert_eq!(verdict(&instruction, b"agreed"), Err(ErrorCode::InvalidSecp256k1Program));
    instruction.data.clear();
    assert_eq!(verdict(&instruction, b"agreed"), Err(ErrorCode::InvalidSecp256k1Program));
}

#[test]
fn secp256k1_instruction_with_a_short_header_is_malformed() {
    let mut instruction = proof_of(b"");
    instruction.data.truncate(96);
    assert_eq!(verdict(&instruction, b""), Err(ErrorCode::MalformedSecp256k1Instruction));
}

#[test]
fn secp256k1_instruction_must_assert_one_signature() {
    for count in [0u8, 2, 255] {
        let mut instruction = proof_of(b"agreed");
        instruction.data[0] = count;
        assert_eq!(verdict(&instruction, b"other"), Err(ErrorCode::InvalidSecp256k1Instruction));
    }
}

#[test]
fn secp256k1_message_past_the_end_is_malformed() {
    let mut instruction = proof_of(b"agreed");
    instruction.data[9..11].copy_from_slice(&7u16.to_le_bytes());
    assert_eq!(verdict(&instruction, b"agreed"), Err(ErrorCode::MalformedSecp256k1Instruction));
    instruction.data[7..9].copy_from_slice(&u16::MAX.to_le_bytes());
    instruction.data[9..11].copy_from_slice(&u16::MAX.to_le_bytes());
    assert_eq!(verdict(&instruction, b"agreed"), Err(ErrorCode::MalformedSecp256k1Instruction));
}

#[test]
fn secp256k1_fields_are_compared_in_order() {
    let mut other_address = address();
    other_address[19] ^= 1;
    let instruction = proof_of(b"agreed");
    assert_eq!(
        verify_instruction(&instruction, &other_address, &[0u8; 64], b"other"),
        Err(ErrorCode::InvalidEvmAddress)
    );
    assert_eq!(
        verify_instruction(&instruction, &address(), &[0u8; 64], b"other"),
        Err(ErrorCode::InvalidMessage)
    );
    assert_eq!(
        verify_instruction(&instruction, &address(), &[0u8; 64], b"agreed"),
        Err(ErrorCode::InvalidSignature)
    );
}

#[test]
fn secp256k1_address_mismatch_is_reported_before_a_message_past_the_end() {
    let mut instruction = proof_of(b"agreed");
    instruction.data[12] ^= 1;
    instruction.data[7..9].copy_from_slice(&u16::MAX.to_le_bytes());
    assert_eq!(verdict(&instruction, b"agreed"), Err(ErrorCode::InvalidEvmAddress));
}

#[test]
fn secp256k1_every_altered_byte_behind_the_offsets_is_noticed() {
    let accepted = proof_of(b"agreed");
    for at in 12..accepted.data.len() {
        let mut instruction = accepted.clone();
        instruction.data[at] ^= 0x10;
        let expected = if at < 32 {
            Err(ErrorCode::InvalidEvmAddress)
        } else if at < 96 {
            Err(ErrorCode::InvalidSignature)
        } else if at == 96 {
            Ok(())
        } else {
            Err(ErrorCode::InvalidMessage)
        };
        assert_eq!(verdict(&instruction, b"agreed"), expected);
    }
}

#[test]
fn secp256k1_header_offsets_of_address_and_signature_are_not_followed() {
    let mut instruction = proof_of(b"agreed");
    instruction.data[1..3].copy_from_slice(&u16::MAX.to_le_bytes());
    instruction.data[4..6].copy_from_slice(&u16::MAX.to_le_bytes());
    assert_eq!(verdict(&instruction, b"agreed"), Ok(()));
}

#[test]
fn padded_address_is_right_aligned() {
    let padded = padded_address(&address());
    assert_eq!(padded[..12], [0u8; 12]);
    assert_eq!(padded[12..], address());
}

#[test]
fn checked_entry_eth_stores_the_padded_address() {
    let kv_pairs = alice();
    let entry =
        checked_entry_eth(&proof_of(b"agreed"), kv_pairs.clone(), address(), signature(), b"agreed");
    assert_eq!(
        entry,
        Ok(DataEntry { kv_pairs, signer: padded_address(&address()), signature: signature() })
    );
}

#[test]
fn checked_entry_eth_passes_the_verdict_on() {
    let entry = checked_entry_eth(&proof_of(b"agreed"), alice(), address(), signature(), b"other");
    assert_eq!(entry, Err(ErrorCode::InvalidMessage));
}

#[test]
fn secp256k1_program_is_the_native_one() {
    let id = solana_program::secp256k1_program::id();
    assert_eq!(id.to_string(), "KeccakSecp256k11111111111111111111111111111");
    assert_eq!(id.to_bytes(), SECP256K1_PROGRAM);
    let native = solana_secp256k1_program::new_secp256k1_instruction_with_signature(
        b"agreed",
        &signature(),
        1,
        &address(),
    );
    assert_eq!(native.data, proof_data(&address(), &signature(), 1, b"agreed"));
    let layout = Secp256k1InstructionLayout::decode(&native.data).unwrap();
    assert_eq!(layout.num_signatures, 1);
    assert_eq!(layout.eth_address_offset, 12);
    assert_eq!(layout.signature_offset, 32);
    assert_eq!(layout.message_data_offset, 97);
    assert_eq!(layout.message_data_size, 6);
    assert_eq!(layout.eth_address, address());
    assert_eq!(layout.signature, signature());
    assert_eq!(layout.recovery_id, 1);
}

#[test]
fn keccak_of_the_domain_type_is_the_known_type_hash() {
    // The domain separator is the known one only if the type hash is
    // 8b73c3c6...400f, the value that every EIP-712 domain of this type has.
    let expected: [u8; 32] = [
        0x8b, 0x73, 0xc3, 0xc6, 0x9b, 0xb8, 0xfe, 0x3d, 0x51, 0x2e, 0xcc, 0x4c, 0xf7, 0x59, 0xcc,
        0x79, 0x23, 0x9f, 0x7b, 0x17, 0x9b, 0x0f, 0xfa, 0xca, 0xa9, 0xa7, 0x5d, 0x52, 0x2b, 0x39,
        0x40, 0x0f,
    ];
    assert_eq!(solana_program::keccak::hash(DOMAIN_TYPE.as_bytes()).to_bytes(), expected);
}
