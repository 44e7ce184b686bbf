//! Agreements signed with secp256k1 keys, in the manner of Ethereum.
//!
//! The signer is known by the 20-byte address of the key. The message to
//! sign is the EIP-712 encoding of the agreement: the bytes `0x19 0x01`, the
//! domain separator of the registry, and the hash of the agreement as typed
//! data. As with Ed25519, the signature is verified by a native program in
//! the preceding instruction, which is inspected here.
use solana_program::account_info::AccountInfo;
use solana_program::program_error::ProgramError;
use vstd::prelude::*;
use vstd::utf8::encode_utf8;

use crate::utils::bytes::{
    extend, read_u16_le, same_bytes, u16_le_at, window, window_of, window_of_altered_data,
};
use crate::utils::instructions::{load_instruction_at, preceding_index, Instruction};
use crate::utils::offchain_message::{KeyValuePair, Pair};

verus! {

/// Why a secp256k1 agreement was refused.
#[derive(Debug, PartialEq, Eq)]
pub enum ErrorCode {
    /// The current instruction is the first of its transaction, so no
    /// instruction precedes it.
    MissingSecp256k1Instruction,
    /// The preceding instruction is not addressed to the secp256k1 program.
    InvalidSecp256k1Program,
    /// The preceding instruction does not assert exactly one signature.
    InvalidSecp256k1Instruction,
    /// The preceding instruction verified the signature of another address.
    InvalidEvmAddress,
    /// The preceding instruction verified another message.
    InvalidMessage,
    /// The preceding instruction verified another signature.
    InvalidSignature,
    /// The preceding instruction's data is shorter than its header, or the
    /// message that the header points at reaches past the end of the data.
    MalformedSecp256k1Instruction,
    /// The instructions sysvar did not yield the preceding instruction.
    InstructionsSysvar(ProgramError),
}

/// The Keccak-256 digest of `data`.
pub uninterp spec fn keccak256(data: Seq<u8>) -> [u8; 32];

/// `solana_program::keccak::hash`: the Keccak-256 digest of `data`, as its
/// 32 bytes.
#[verifier::external_body]
#[allow(deprecated)]
fn keccak(data: &[u8]) -> (digest: [u8; 32])
    ensures
        digest == keccak256(data@),
{
    solana_program::keccak::hash(data).to_bytes()
}

/// The Keccak-256 digest of `data`, as a sequence of 32 bytes.
pub open spec fn hash(data: Seq<u8>) -> Seq<u8> {
    keccak256(data)@
}

/// The type of the EIP-712 domain.
pub const DOMAIN_TYPE: &'static str =
    "EIP712Domain(string name,string version,uint256 chainId,address verifyingContract)";

/// The name of the signing domain.
pub const NAME: &'static str = "CyberAgreementRegistry";

/// The version of the signing domain.
pub const VERSION: &'static str = "1";

/// The chain of the signing domain.
pub const CHAIN_ID: u64 = 1;

/// The address of the registry contract of the signing domain.
pub const VERIFYING_CONTRACT: [u8; 20] = [
    0xa9, 0xe8, 0x08, 0xb8, 0xec, 0xbb, 0x60, 0xbb, 0x19, 0xab,
    0xf0, 0x26, 0xb5, 0xb8, 0x63, 0x21, 0x5b, 0xc4, 0xc1, 0x34,
];

/// The type of the signed data, with the type it refers to.
pub const SIGNATURE_DATA_TYPE: &'static str =
    "SignatureData(KeyValuePair[] kvPairs)KeyValuePair(string key,string value)";

/// The type of one pair.
pub const KEY_VALUE_PAIR_TYPE: &'static str = "KeyValuePair(string key,string value)";

/// The eight bytes of `x`, most significant first.
pub open spec fn u64_be(x: u64) -> Seq<u8> {
    seq![
        (x / 0x100_0000_0000_0000) as u8,
        (x / 0x1_0000_0000_0000 % 256) as u8,
        (x / 0x100_0000_0000 % 256) as u8,
        (x / 0x1_0000_0000 % 256) as u8,
        (x / 0x100_0000 % 256) as u8,
        (x / 0x1_0000 % 256) as u8,
        (x / 0x100 % 256) as u8,
        (x % 256) as u8,
    ]
}

/// `bytes` behind as many zero bytes as make 32 bytes in all.
pub open spec fn left_padded(bytes: Seq<u8>) -> Seq<u8>
    recommends
        bytes.len() <= 32,
{
    Seq::new((32 - bytes.len()) as nat, |i: int| 0u8) + bytes
}

/// The hash of a text.
pub open spec fn text_hash(text: Seq<char>) -> Seq<u8> {
    hash(encode_utf8(text))
}

/// The EIP-712 domain separator of the registry.
pub open spec fn domain_separator_bytes() -> Seq<u8> {
    hash(
        text_hash(DOMAIN_TYPE@) + text_hash(NAME@) + text_hash(VERSION@) + left_padded(
            u64_be(CHAIN_ID),
        ) + left_padded(VERIFYING_CONTRACT@),
    )
}

/// The hash of one pair as typed data.
pub open spec fn key_value_pair_hash(pair: Pair) -> Seq<u8> {
    hash(text_hash(KEY_VALUE_PAIR_TYPE@) + hash(pair.key) + hash(pair.value))
}

/// The hashes of the pairs, one behind the other.
pub open spec fn joined_hashes(kv_pairs: Seq<Pair>) -> Seq<u8> {
    kv_pairs.flat_map(|pair: Pair| key_value_pair_hash(pair))
}

/// The hash of the array of pairs: that of their hashes, joined in order.
pub open spec fn key_value_pairs_hash(kv_pairs: Seq<Pair>) -> Seq<u8> {
    hash(joined_hashes(kv_pairs))
}

/// The hash of the agreement as typed data.
pub open spec fn signature_data_hash(kv_pairs: Seq<Pair>) -> Seq<u8> {
    hash(text_hash(SIGNATURE_DATA_TYPE@) + key_value_pairs_hash(kv_pairs))
}

/// The message to sign for an agreement.
pub open spec fn typed_data_message(kv_pairs: Seq<Pair>) -> Seq<u8> {
    seq![0x19u8, 0x01u8] + domain_separator_bytes() + signature_data_hash(kv_pairs)
}

/// Hashes a text.
fn hash_text(text: &str) -> (digest: [u8; 32])
    ensures
        digest@ == text_hash(text@),
{
    keccak(text.as_bytes())
}

/// Appends `bytes` behind as many zero bytes as make 32 bytes in all.
fn push_left_padded(dst: &mut Vec<u8>, bytes: &[u8])
    requires
        bytes@.len() <= 32,
    ensures
        final(dst)@ == old(dst)@ + left_padded(bytes@),
{
    let zeros: usize = 32 - bytes.len();
    let mut i: usize = 0;
    while i < zeros
        invariant
            i <= zeros,
            zeros == 32 - bytes@.len(),
            dst@ == old(dst)@ + Seq::new(i as nat, |k: int| 0u8),
        decreases zeros - i,
    {
        dst.push(0u8);
        assert(Seq::new((i + 1) as nat, |k: int| 0u8) == Seq::new(i as nat, |k: int| 0u8).push(
            0u8,
        ));
        i += 1;
    }
    extend(dst, bytes);
}

/// The eight bytes of `x`, most significant first.
fn u64_to_be(x: u64) -> (bytes: [u8; 8])
    ensures
        bytes@ == u64_be(x),
{
    [
        (x / 0x100_0000_0000_0000) as u8,
        (x / 0x1_0000_0000_0000 % 256) as u8,
        (x / 0x100_0000_0000 % 256) as u8,
        (x / 0x1_0000_0000 % 256) as u8,
        (x / 0x100_0000 % 256) as u8,
        (x / 0x1_0000 % 256) as u8,
        (x / 0x100 % 256) as u8,
        (x % 256) as u8,
    ]
}

/// Computes the EIP-712 domain separator of the registry. It is the same for
/// every agreement.
pub fn domain_separator() -> (separator: [u8; 32])
    ensures
        separator@ == domain_separator_bytes(),
{
    let type_hash = hash_text(DOMAIN_TYPE);
    let name_hash = hash_text(NAME);
    let version_hash = hash_text(VERSION);
    let chain_id = u64_to_be(CHAIN_ID);
    let mut encoded: Vec<u8> = Vec::new();
    extend(&mut encoded, type_hash.as_slice());
    extend(&mut encoded, name_hash.as_slice());
    extend(&mut encoded, version_hash.as_slice());
    push_left_padded(&mut encoded, chain_id.as_slice());
    push_left_padded(&mut encoded, VERIFYING_CONTRACT.as_slice());
    keccak(encoded.as_slice())
}

/// Hashes one pair as typed data.
pub fn hash_key_value_pair(kv_pair: &KeyValuePair) -> (digest: [u8; 32])
    ensures
        digest@ == key_value_pair_hash(kv_pair@),
{
    let type_hash = hash_text(KEY_VALUE_PAIR_TYPE);
    let key_hash = keccak(kv_pair.key.as_str().as_bytes());
    let value_hash = keccak(kv_pair.value.as_str().as_bytes());
    let mut encoded: Vec<u8> = Vec::new();
    extend(&mut encoded, type_hash.as_slice());
    extend(&mut encoded, key_hash.as_slice());
    extend(&mut encoded, value_hash.as_slice());
    keccak(encoded.as_slice())
}

/// Hashes the array of pairs.
pub fn hash_key_value_pairs(kv_pairs: &Vec<KeyValuePair>) -> (digest: [u8; 32])
    ensures
        digest@ == key_value_pairs_hash(kv_pairs.deep_view()),
{
    let ghost pairs = kv_pairs.deep_view();
    let ghost each = |pair: Pair| key_value_pair_hash(pair);
    let mut joined: Vec<u8> = Vec::new();
    assert(joined_hashes(pairs.take(0)) == Seq::<u8>::empty());
    let mut i: usize = 0;
    while i < kv_pairs.len()
        invariant
            i <= kv_pairs@.len(),
            pairs == kv_pairs.deep_view(),
            each == |pair: Pair| key_value_pair_hash(pair),
            joined@ == joined_hashes(pairs.take(i as int)),
        decreases kv_pairs@.len() - i,
    {
        let pair_hash = hash_key_value_pair(&kv_pairs[i]);
        extend(&mut joined, pair_hash.as_slice());
        proof {
            let before = pairs.take(i as int);
            assert(pairs.take(i + 1) == before.push(pairs[i as int]));
            assert(before.push(pairs[i as int]).map_values(each) == before.map_values(each).push(
                each(pairs[i as int]),
            ));
            before.map_values(each).lemma_flatten_push(each(pairs[i as int]));
        }
        i += 1;
    }
    assert(pairs.take(i as int) == pairs);
    keccak(joined.as_slice())
}

/// Hashes the agreement as typed data.
pub fn hash_signature_data(kv_pairs: &Vec<KeyValuePair>) -> (digest: [u8; 32])
    ensures
        digest@ == signature_data_hash(kv_pairs.deep_view()),
{
    let type_hash = hash_text(SIGNATURE_DATA_TYPE);
    let pairs_hash = hash_key_value_pairs(kv_pairs);
    let mut encoded: Vec<u8> = Vec::new();
    extend(&mut encoded, type_hash.as_slice());
    extend(&mut encoded, pairs_hash.as_slice());
    keccak(encoded.as_slice())
}

/// Builds the message that the signer of an agreement signs. It never fails.
pub fn format_message(kv_pairs: &Vec<KeyValuePair>) -> (r: Result<Vec<u8>, ErrorCode>)
    ensures
        r matches Ok(message) && message@ == typed_data_message(kv_pairs.deep_view()),
{
    let separator = domain_separator();
    let data_hash = hash_signature_data(kv_pairs);
    let mut encoded_message: Vec<u8> = Vec::new();
    encoded_message.push(0x19u8);
    encoded_message.push(0x01u8);
    extend(&mut encoded_message, separator.as_slice());
    extend(&mut encoded_message, data_hash.as_slice());
    Ok(encoded_message)
}

/// The number of bytes of an address.
pub const EVM_ADDRESS_SIZE: usize = 20;

/// The number of bytes of a signature.
pub const SIGNATURE_SIZE: usize = 64;

/// The number of bytes of the header of a secp256k1 instruction.
pub const LAYOUT_SIZE: usize = 97;

/// The address of the secp256k1 program,
/// `KeccakSecp256k11111111111111111111111111111`, as bytes.
pub open spec fn secp256k1_program_id() -> Seq<u8> {
    seq![
        0x04u8, 0xc6, 0xfc, 0x20, 0xf0, 0x50, 0xcc, 0xf0,
        0x55, 0x84, 0xd7, 0x21, 0x1c, 0x9f, 0x8c, 0xf5,
        0x9e, 0xc1, 0x47, 0x85, 0xbb, 0x16, 0x6a, 0x1e,
        0x28, 0x30, 0xe8, 0x12, 0x20, 0x00, 0x00, 0x00,
    ]
}

/// `solana_program::secp256k1_program::id`, as bytes. The crate declares the
/// address in Base58, `KeccakSecp256k11111111111111111111111111111`; the
/// contract states the 32 bytes that this text stands for.
#[verifier::external_body]
fn program_id() -> (id: [u8; 32])
    ensures
        id@ == secp256k1_program_id(),
{
    solana_program::secp256k1_program::id().to_bytes()
}

/// The header of the data of a secp256k1 instruction that asserts one
/// signature and carries address, signature and recovery id directly behind
/// the offsets. Integers of two bytes are little-endian. The offsets count
/// from the start of the data.
#[derive(Debug, Clone, Copy, PartialEq, Eq)]
pub struct Secp256k1InstructionLayout {
    pub num_signatures: u8,
    pub signature_offset: u16,
    pub signature_instruction_index: u8,
    pub eth_address_offset: u16,
    pub eth_address_instruction_index: u8,
    pub message_data_offset: u16,
    pub message_data_size: u16,
    pub message_instruction_index: u8,
    pub eth_address: [u8; 20],
    pub signature: [u8; 64],
    pub recovery_id: u8,
}

/// Copies the `N` bytes of `data` from `at` on.
fn array_at<const N: usize>(data: &[u8], at: usize) -> (bytes: [u8; N])
    requires
        at + N <= data@.len(),
    ensures
        bytes@ == data@.subrange(at as int, at + N),
{
    let len: usize = data.len();
    let mut bytes = [0u8; N];
    let mut i: usize = 0;
    while i < N
        invariant
            i <= N,
            at + N <= data@.len() == len,
            bytes@.subrange(0, i as int) == data@.subrange(at as int, at + i),
        decreases N - i,
    {
        bytes[i] = data[at + i];
        assert(bytes@.subrange(0, i + 1) == data@.subrange(at as int, at + i).push(
            data@[at + i],
        ));
        assert(data@.subrange(at as int, at + i + 1) == data@.subrange(at as int, at + i).push(
            data@[at + i],
        ));
        i += 1;
    }
    assert(bytes@.subrange(0, N as int) == bytes@);
    bytes
}

impl Secp256k1InstructionLayout {
    /// Whether this is the header that the first 97 bytes of `data` spell.
    pub open spec fn spells(&self, data: Seq<u8>) -> bool
        recommends
            data.len() >= LAYOUT_SIZE,
    {
        &&& self.num_signatures == data[0]
        &&& self.signature_offset == u16_le_at(data, 1)
        &&& self.signature_instruction_index == data[3]
        &&& self.eth_address_offset == u16_le_at(data, 4)
        &&& self.eth_address_instruction_index == data[6]
        &&& self.message_data_offset == u16_le_at(data, 7)
        &&& self.message_data_size == u16_le_at(data, 9)
        &&& self.message_instruction_index == data[11]
        &&& self.eth_address@ == data.subrange(12, 32)
        &&& self.signature@ == data.subrange(32, 96)
        &&& self.recovery_id == data[96]
    }

    /// Reads the header from the first 97 bytes of `data`, whatever follows
    /// them. Fails exactly when `data` is shorter than that. Whether the
    /// offsets lie within `data` is not looked at.
    pub fn decode(data: &[u8]) -> (r: Result<Secp256k1InstructionLayout, ErrorCode>)
        ensures
            data@.len() >= LAYOUT_SIZE ==> (r matches Ok(layout) && layout.spells(data@)),
            data@.len() < LAYOUT_SIZE ==> r == Err::<Secp256k1InstructionLayout, ErrorCode>(
                ErrorCode::MalformedSecp256k1Instruction,
            ),
    {
        if data.len() < LAYOUT_SIZE {
            return Err(ErrorCode::MalformedSecp256k1Instruction);
        }
        Ok(
            Secp256k1InstructionLayout {
                num_signatures: data[0],
                signature_offset: read_u16_le(data, 1),
                signature_instruction_index: data[3],
                eth_address_offset: read_u16_le(data, 4),
                eth_address_instruction_index: data[6],
                message_data_offset: read_u16_le(data, 7),
                message_data_size: read_u16_le(data, 9),
                message_instruction_index: data[11],
                eth_address: array_at::<20>(data, 12),
                signature: array_at::<64>(data, 32),
                recovery_id: data[96],
            },
        )
    }
}

/// The address that an instruction's data carries in its header.
pub open spec fn eth_address_field(data: Seq<u8>) -> Seq<u8>
    recommends
        data.len() >= LAYOUT_SIZE,
{
    data.subrange(12, 32)
}

/// The signature that an instruction's data carries in its header.
pub open spec fn signature_field(data: Seq<u8>) -> Seq<u8>
    recommends
        data.len() >= LAYOUT_SIZE,
{
    data.subrange(32, 96)
}

/// The message that an instruction's data names.
pub open spec fn message_field(data: Seq<u8>) -> Option<Seq<u8>>
    recommends
        data.len() >= LAYOUT_SIZE,
{
    window(data, u16_le_at(data, 7) as int, u16_le_at(data, 9) as int)
}

/// The verdict on an instruction with the given program id and data, held
/// against the expected signer, signature and message. The checks are made in
/// this order, and the first that fails decides: the program, the length of
/// the header, the number of signatures, the address, the message, the
/// signature. The recovery id in the header is not compared with anything.
pub open spec fn verification(
    program_id: Seq<u8>,
    data: Seq<u8>,
    signer: Seq<u8>,
    signature: Seq<u8>,
    message: Seq<u8>,
) -> Result<(), ErrorCode> {
    if program_id != secp256k1_program_id() {
        Err(ErrorCode::InvalidSecp256k1Program)
    } else if data.len() < LAYOUT_SIZE {
        Err(ErrorCode::MalformedSecp256k1Instruction)
    } else if data[0] != 1 {
        Err(ErrorCode::InvalidSecp256k1Instruction)
    } else if eth_address_field(data) != signer {
        Err(ErrorCode::InvalidEvmAddress)
    } else if message_field(data) is None {
        Err(ErrorCode::MalformedSecp256k1Instruction)
    } else if message_field(data) != Some(message) {
        Err(ErrorCode::InvalidMessage)
    } else if signature_field(data) != signature {
        Err(ErrorCode::InvalidSignature)
    } else {
        Ok(())
    }
}

/// Whether an instruction with the given program id and data is a call of
/// the secp256k1 program that asserts one signature, and that one by the key
/// with the address `signer` over `message` with the bytes `signature`.
pub open spec fn asserts_signature(
    program_id: Seq<u8>,
    data: Seq<u8>,
    signer: Seq<u8>,
    signature: Seq<u8>,
    message: Seq<u8>,
) -> bool {
    &&& program_id == secp256k1_program_id()
    &&& data.len() >= LAYOUT_SIZE
    &&& data[0] == 1
    &&& eth_address_field(data) == signer
    &&& message_field(data) == Some(message)
    &&& signature_field(data) == signature
}

/// Decides whether `instruction` shows that the secp256k1 program has
/// verified `signature` as the signature of the key with the address
/// `signer` over `message`.
pub fn verify_instruction(
    instruction: &Instruction,
    signer: &[u8; 20],
    signature: &[u8; 64],
    message: &[u8],
) -> (r: Result<(), ErrorCode>)
    ensures
        r == verification(
            instruction.program_id@,
            instruction.data@,
            signer@,
            signature@,
            message@,
        ),
        r is Ok <==> asserts_signature(
            instruction.program_id@,
            instruction.data@,
            signer@,
            signature@,
            message@,
        ),
{
    let expected_program = program_id();
    if !same_bytes(instruction.program_id.as_slice(), expected_program.as_slice()) {
        return Err(ErrorCode::InvalidSecp256k1Program);
    }
    let data = instruction.data.as_slice();
    let layout = Secp256k1InstructionLayout::decode(data)?;
    if layout.num_signatures != 1 {
        return Err(ErrorCode::InvalidSecp256k1Instruction);
    }
    if !same_bytes(layout.eth_address.as_slice(), signer.as_slice()) {
        return Err(ErrorCode::InvalidEvmAddress);
    }
    match window_of(data, layout.message_data_offset, layout.message_data_size) {
        None => { return Err(ErrorCode::MalformedSecp256k1Instruction); },
        Some(found) => if !same_bytes(found, message) {
            return Err(ErrorCode::InvalidMessage);
        },
    }
    if !same_bytes(layout.signature.as_slice(), signature.as_slice()) {
        return Err(ErrorCode::InvalidSignature);
    }
    Ok(())
}

/// Checks that the instruction immediately before the one at `current_index`
/// shows that the secp256k1 program has verified `signature` as the
/// signature of the key with the address `signer` over `message`.
///
/// `ix_sysvar_account_info` is the instructions sysvar account, and
/// `current_index` the index that the sysvar gives for the instruction that
/// is running. The preceding instruction is looked up in the account, and
/// no other. Where the lookup succeeds, the outcome is that of
/// [`verify_instruction`] on what it found. `recovery_id` plays no part in
/// it.
pub fn verify_signature(
    ix_sysvar_account_info: &AccountInfo,
    current_index: u16,
    signer: [u8; 20],
    signature: [u8; 64],
    recovery_id: u8,
    message: Vec<u8>,
) -> (r: Result<(), ErrorCode>)
    ensures
        current_index == 0 ==> r == Err::<(), ErrorCode>(ErrorCode::MissingSecp256k1Instruction),
        current_index > 0 ==> (r matches Err(ErrorCode::InstructionsSysvar(_))) || (exists|
            program_id: Seq<u8>,
            data: Seq<u8>,
        |
            r == verification(program_id, data, signer@, signature@, message@)),
{
    let at = match preceding_index(current_index) {
        None => { return Err(ErrorCode::MissingSecp256k1Instruction); },
        Some(at) => at,
    };
    let instruction = match load_instruction_at(at, ix_sysvar_account_info) {
        Err(e) => { return Err(ErrorCode::InstructionsSysvar(e)); },
        Ok(instruction) => instruction,
    };
    verify_instruction(&instruction, &signer, &signature, message.as_slice())
}

/// An instruction is accepted exactly when it is addressed to the secp256k1
/// program, asserts one signature, carries the expected address and
/// signature in its header, and the expected message where the header says.
pub proof fn accepted_exactly_when_asserted(
    program_id: Seq<u8>,
    data: Seq<u8>,
    signer: Seq<u8>,
    signature: Seq<u8>,
    message: Seq<u8>,
)
    ensures
        verification(program_id, data, signer, signature, message) is Ok <==> asserts_signature(
            program_id,
            data,
            signer,
            signature,
            message,
        ),
{
}

/// An instruction of the secp256k1 program with a whole header that asserts
/// no signature, or more than one, is refused for that, whatever else it
/// holds and whatever is expected.
pub proof fn other_signature_counts_are_refused(
    data: Seq<u8>,
    signer: Seq<u8>,
    signature: Seq<u8>,
    message: Seq<u8>,
)
    requires
        data.len() >= LAYOUT_SIZE,
        data[0] != 1,
    ensures
        verification(secp256k1_program_id(), data, signer, signature, message) == Err::<
            (),
            ErrorCode,
        >(ErrorCode::InvalidSecp256k1Instruction),
{
}

/// An instruction addressed to any other program is refused for that,
/// whatever it holds.
pub proof fn other_programs_are_refused(
    program_id: Seq<u8>,
    data: Seq<u8>,
    signer: Seq<u8>,
    signature: Seq<u8>,
    message: Seq<u8>,
)
    requires
        program_id != secp256k1_program_id(),
    ensures
        verification(program_id, data, signer, signature, message) == Err::<(), ErrorCode>(
            ErrorCode::InvalidSecp256k1Program,
        ),
{
}

/// An instruction that is accepted for one signer is refused for every
/// other, as one that verified the signature of another address. A signer
/// that is not 20 bytes long is never accepted.
pub proof fn other_signers_are_refused(
    program_id: Seq<u8>,
    data: Seq<u8>,
    signer: Seq<u8>,
    signature: Seq<u8>,
    message: Seq<u8>,
    other: Seq<u8>,
)
    requires
        verification(program_id, data, signer, signature, message) is Ok,
        other != signer,
    ensures
        signer.len() == EVM_ADDRESS_SIZE,
        verification(program_id, data, other, signature, message) == Err::<(), ErrorCode>(
            ErrorCode::InvalidEvmAddress,
        ),
{
}

/// An instruction that is accepted for one message is refused for every
/// other, as one that verified another message.
pub proof fn other_messages_are_refused(
    program_id: Seq<u8>,
    data: Seq<u8>,
    signer: Seq<u8>,
    signature: Seq<u8>,
    message: Seq<u8>,
    other: Seq<u8>,
)
    requires
        verification(program_id, data, signer, signature, message) is Ok,
        other != message,
    ensures
        verification(program_id, data, signer, signature, other) == Err::<(), ErrorCode>(
            ErrorCode::InvalidMessage,
        ),
{
}

/// An instruction that is accepted for one signature is refused for every
/// other, as one that verified another signature.
pub proof fn other_signatures_are_refused(
    program_id: Seq<u8>,
    data: Seq<u8>,
    signer: Seq<u8>,
    signature: Seq<u8>,
    message: Seq<u8>,
    other: Seq<u8>,
)
    requires
        verification(program_id, data, signer, signature, message) is Ok,
        other != signature,
    ensures
        verification(program_id, data, signer, other, message) == Err::<(), ErrorCode>(
            ErrorCode::InvalidSignature,
        ),
{
}

/// Changing one byte behind the offsets of an accepted instruction leaves it
/// accepted only if the byte belongs to neither address, message nor
/// signature. Else it is refused for the first of the three that holds the
/// byte.
pub proof fn altered_data_is_refused(
    program_id: Seq<u8>,
    data: Seq<u8>,
    signer: Seq<u8>,
    signature: Seq<u8>,
    message: Seq<u8>,
    at: int,
    byte: u8,
)
    requires
        verification(program_id, data, signer, signature, message) is Ok,
        12 <= at < data.len(),
        byte != data[at],
    ensures
        verification(program_id, data.update(at, byte), signer, signature, message) == (if at
            < 32 {
            Err::<(), ErrorCode>(ErrorCode::InvalidEvmAddress)
        } else if u16_le_at(data, 7) <= at < u16_le_at(data, 7) + u16_le_at(data, 9) {
            Err::<(), ErrorCode>(ErrorCode::InvalidMessage)
        } else if at < 96 {
            Err::<(), ErrorCode>(ErrorCode::InvalidSignature)
        } else {
            Ok::<(), ErrorCode>(())
        }),
{
    let altered = data.update(at, byte);
    window_of_altered_data(data, 12, 20, at, byte);
    window_of_altered_data(data, 32, 64, at, byte);
    window_of_altered_data(data, u16_le_at(data, 7) as int, u16_le_at(data, 9) as int, at, byte);
    assert(window(data, 12, 20) == Some(eth_address_field(data)));
    assert(window(data, 32, 64) == Some(signature_field(data)));
    assert(window(altered, 12, 20) == Some(eth_address_field(altered)));
    assert(window(altered, 32, 64) == Some(signature_field(altered)));
}

/// Every message is 66 bytes long: the two bytes `0x19 0x01`, the domain
/// separator, which is the same whatever the agreement, and the hash of the
/// agreement.
pub proof fn domain_separator_is_shared(kv_pairs: Seq<Pair>)
    ensures
        typed_data_message(kv_pairs).len() == 66,
        typed_data_message(kv_pairs).subrange(0, 2) == seq![0x19u8, 0x01u8],
        typed_data_message(kv_pairs).subrange(2, 34) == domain_separator_bytes(),
        typed_data_message(kv_pairs).subrange(34, 66) == signature_data_hash(kv_pairs),
{
}

/// The message is a function of the agreement: whatever is returned for the
/// same keys and values in the same order is the same, byte for byte.
pub proof fn message_is_determined(
    kv_pairs: Seq<Pair>,
    first: Result<Vec<u8>, ErrorCode>,
    second: Result<Vec<u8>, ErrorCode>,
)
    requires
        first matches Ok(message) && message@ == typed_data_message(kv_pairs),
        second matches Ok(message) && message@ == typed_data_message(kv_pairs),
    ensures
        first->Ok_0@ == second->Ok_0@,
{
}

} // verus!
