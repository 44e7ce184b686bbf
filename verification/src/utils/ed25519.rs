//! Agreements signed with Ed25519 keys.
//!
//! A program cannot call the Ed25519 program. The sender of the transaction
//! calls it in the instruction immediately before the program's own, and the
//! program inspects that instruction: it must be addressed to the Ed25519
//! program, assert a single signature, and carry the expected public key,
//! message and signature at the places its header names.
use solana_program::account_info::AccountInfo;
use solana_program::program_error::ProgramError;
use vstd::prelude::*;

use crate::utils::bytes::{
    read_u16_le, same_bytes, u16_le_at, window, window_of, window_of_altered_data,
};
use crate::utils::instructions::{load_instruction_at, preceding_index, Instruction};
pub use crate::utils::offchain_message::format_message;
pub use crate::utils::offchain_message::KeyValuePair;

verus! {

/// Why an Ed25519 agreement was refused.
#[derive(Debug, PartialEq, Eq)]
pub enum ErrorCode {
    /// The current instruction is the first of its transaction, so no
    /// instruction precedes it.
    MissingEd25519Instruction,
    /// The preceding instruction is not addressed to the Ed25519 program.
    InvalidEd25519Program,
    /// The preceding instruction does not assert exactly one signature.
    InvalidEd25519Instruction,
    /// The preceding instruction verified another public key.
    InvalidPublicKey,
    /// The preceding instruction verified another message.
    InvalidMessage,
    /// The preceding instruction verified another signature.
    InvalidSignature,
    /// The preceding instruction's data is shorter than its header, or a field
    /// that the header points at reaches past the end of the data.
    MalformedEd25519Instruction,
    /// The agreement has more pairs, or a key or value more bytes, than a
    /// four-byte length prefix can count.
    LengthOverflow,
    /// The instructions sysvar did not yield the preceding instruction.
    InstructionsSysvar(ProgramError),
}

/// The number of bytes of a public key.
pub const PUBLIC_KEY_SIZE: u16 = 32;

/// The number of bytes of a signature.
pub const SIGNATURE_SIZE: u16 = 64;

/// The number of bytes of the header of an Ed25519 instruction.
pub const LAYOUT_SIZE: usize = 16;

/// The address of the Ed25519 program,
/// `Ed25519SigVerify111111111111111111111111111`, as bytes.
pub open spec fn ed25519_program_id() -> Seq<u8> {
    seq![
        0x03u8, 0x7d, 0x46, 0xd6, 0x7c, 0x93, 0xfb, 0xbe,
        0x12, 0xf9, 0x42, 0x8f, 0x83, 0x8d, 0x40, 0xff,
        0x05, 0x70, 0x74, 0x49, 0x27, 0xf4, 0x8a, 0x64,
        0xfc, 0xca, 0x70, 0x44, 0x80, 0x00, 0x00, 0x00,
    ]
}

/// `solana_program::ed25519_program::id`, as bytes. The crate declares the
/// address in Base58, `Ed25519SigVerify111111111111111111111111111`; the
/// contract states the 32 bytes that this text stands for.
#[verifier::external_body]
fn program_id() -> (id: [u8; 32])
    ensures
        id@ == ed25519_program_id(),
{
    solana_program::ed25519_program::id().to_bytes()
}

/// The header of the data of an Ed25519 instruction that asserts one
/// signature. Integers of two bytes are little-endian. The offsets count from
/// the start of the data.
#[derive(Debug, Clone, Copy, PartialEq, Eq, Structural)]
pub struct Ed25519InstructionLayout {
    pub num_signatures: u8,
    pub padding: u8,
    pub signature_offset: u16,
    pub signature_instruction_index: u16,
    pub public_key_offset: u16,
    pub public_key_instruction_index: u16,
    pub message_data_offset: u16,
    pub message_data_size: u16,
    pub message_instruction_index: u16,
}

impl Ed25519InstructionLayout {
    /// The header that the first sixteen bytes of `data` spell.
    pub open spec fn parse(data: Seq<u8>) -> Ed25519InstructionLayout
        recommends
            data.len() >= LAYOUT_SIZE,
    {
        Ed25519InstructionLayout {
            num_signatures: data[0],
            padding: data[1],
            signature_offset: u16_le_at(data, 2),
            signature_instruction_index: u16_le_at(data, 4),
            public_key_offset: u16_le_at(data, 6),
            public_key_instruction_index: u16_le_at(data, 8),
            message_data_offset: u16_le_at(data, 10),
            message_data_size: u16_le_at(data, 12),
            message_instruction_index: u16_le_at(data, 14),
        }
    }

    /// Reads the header from the first sixteen bytes of `data`, whatever
    /// follows them. Fails exactly when `data` is shorter than that. Whether
    /// the offsets lie within `data` is not looked at.
    pub fn decode(data: &[u8]) -> (r: Result<Ed25519InstructionLayout, ErrorCode>)
        ensures
            data@.len() >= LAYOUT_SIZE ==> r == Ok::<Ed25519InstructionLayout, ErrorCode>(
                Self::parse(data@),
            ),
            data@.len() < LAYOUT_SIZE ==> r == Err::<Ed25519InstructionLayout, ErrorCode>(
                ErrorCode::MalformedEd25519Instruction,
            ),
    {
        if data.len() < LAYOUT_SIZE {
            return Err(ErrorCode::MalformedEd25519Instruction);
        }
        Ok(
            Ed25519InstructionLayout {
                num_signatures: data[0],
                padding: data[1],
                signature_offset: read_u16_le(data, 2),
                signature_instruction_index: read_u16_le(data, 4),
                public_key_offset: read_u16_le(data, 6),
                public_key_instruction_index: read_u16_le(data, 8),
                message_data_offset: read_u16_le(data, 10),
                message_data_size: read_u16_le(data, 12),
                message_instruction_index: read_u16_le(data, 14),
            },
        )
    }
}

/// The public key that an instruction's data names.
pub open spec fn public_key_field(data: Seq<u8>) -> Option<Seq<u8>> {
    window(
        data,
        Ed25519InstructionLayout::parse(data).public_key_offset as int,
        PUBLIC_KEY_SIZE as int,
    )
}

/// The message that an instruction's data names.
pub open spec fn message_field(data: Seq<u8>) -> Option<Seq<u8>> {
    window(
        data,
        Ed25519InstructionLayout::parse(data).message_data_offset as int,
        Ed25519InstructionLayout::parse(data).message_data_size as int,
    )
}

/// The signature that an instruction's data names.
pub open spec fn signature_field(data: Seq<u8>) -> Option<Seq<u8>> {
    window(
        data,
        Ed25519InstructionLayout::parse(data).signature_offset as int,
        SIGNATURE_SIZE as int,
    )
}

/// The verdict on an instruction with the given program id and data, held
/// against the expected signer, signature and message. The checks are made in
/// this order, and the first that fails decides: the program, the length of
/// the header, the number of signatures, the public key, the message, the
/// signature. A field is looked for only when its turn has come: one that
/// reaches past the end of the data makes the instruction malformed, one that
/// holds other bytes than expected is a mismatch.
pub open spec fn verification(
    program_id: Seq<u8>,
    data: Seq<u8>,
    signer: Seq<u8>,
    signature: Seq<u8>,
    message: Seq<u8>,
) -> Result<(), ErrorCode> {
    if program_id != ed25519_program_id() {
        Err(ErrorCode::InvalidEd25519Program)
    } else if data.len() < LAYOUT_SIZE {
        Err(ErrorCode::MalformedEd25519Instruction)
    } else if Ed25519InstructionLayout::parse(data).num_signatures != 1 {
        Err(ErrorCode::InvalidEd25519Instruction)
    } else if public_key_field(data) is None {
        Err(ErrorCode::MalformedEd25519Instruction)
    } else if public_key_field(data) != Some(signer) {
        Err(ErrorCode::InvalidPublicKey)
    } else if message_field(data) is None {
        Err(ErrorCode::MalformedEd25519Instruction)
    } else if message_field(data) != Some(message) {
        Err(ErrorCode::InvalidMessage)
    } else if signature_field(data) is None {
        Err(ErrorCode::MalformedEd25519Instruction)
    } else if signature_field(data) != Some(signature) {
        Err(ErrorCode::InvalidSignature)
    } else {
        Ok(())
    }
}

/// Whether an instruction with the given program id and data is a call of
/// the Ed25519 program that asserts one signature, and that one by `signer`
/// over `message` with the bytes `signature`.
pub open spec fn asserts_signature(
    program_id: Seq<u8>,
    data: Seq<u8>,
    signer: Seq<u8>,
    signature: Seq<u8>,
    message: Seq<u8>,
) -> bool {
    &&& program_id == ed25519_program_id()
    &&& data.len() >= LAYOUT_SIZE
    &&& data[0] == 1
    &&& public_key_field(data) == Some(signer)
    &&& message_field(data) == Some(message)
    &&& signature_field(data) == Some(signature)
}

/// Holds the field of `len` bytes at `offset` against the expected bytes.
fn compare(data: &[u8], offset: u16, len: u16, expected: &[u8], mismatch: ErrorCode) -> (r: Result<
    (),
    ErrorCode,
>)
    ensures
        r == (match window(data@, offset as int, len as int) {
            None => Err::<(), ErrorCode>(ErrorCode::MalformedEd25519Instruction),
            Some(bytes) => if bytes == expected@ {
                Ok::<(), ErrorCode>(())
            } else {
                Err::<(), ErrorCode>(mismatch)
            },
        }),
{
    match window_of(data, offset, len) {
        None => Err(ErrorCode::MalformedEd25519Instruction),
        Some(bytes) => if same_bytes(bytes, expected) {
            Ok(())
        } else {
            Err(mismatch)
        },
    }
}

/// Decides whether `instruction` shows that the Ed25519 program has verified
/// `signature` as the signature of `signer` over `message`.
pub fn verify_instruction(
    instruction: &Instruction,
    signer: &[u8; 32],
    signature: &[u8; 64],
    message: &[u8],
) -> (r: Result<(), ErrorCode>)
    ensures
        r == verification(
            instruction.program_id@,
            instruction.data@,
            signer@,
            signature@,
            message@,
        ),
        r is Ok <==> asserts_signature(
            instruction.program_id@,
            instruction.data@,
            signer@,
            signature@,
            message@,
        ),
{
    let expected_program = program_id();
    if !same_bytes(instruction.program_id.as_slice(), expected_program.as_slice()) {
        return Err(ErrorCode::InvalidEd25519Program);
    }
    let data = instruction.data.as_slice();
    let layout = Ed25519InstructionLayout::decode(data)?;
    if layout.num_signatures != 1 {
        return Err(ErrorCode::InvalidEd25519Instruction);
    }
    compare(
        data,
        layout.public_key_offset,
        PUBLIC_KEY_SIZE,
        signer.as_slice(),
        ErrorCode::InvalidPublicKey,
    )?;
    compare(
        data,
        layout.message_data_offset,
        layout.message_data_size,
        message,
        ErrorCode::InvalidMessage,
    )?;
    compare(
        data,
        layout.signature_offset,
        SIGNATURE_SIZE,
        signature.as_slice(),
        ErrorCode::InvalidSignature,
    )
}

/// Checks that the instruction immediately before the one at `current_index`
/// shows that the Ed25519 program has verified `signature` as the signature
/// of `signer` over `message`.
///
/// `ix_sysvar_account_info` is the instructions sysvar account, and
/// `current_index` the index that the sysvar gives for the instruction that
/// is running. The preceding instruction is looked up in the account, and
/// no other. Where the lookup succeeds, the outcome is that of
/// [`verify_instruction`] on what it found.
pub fn verify_signature(
    ix_sysvar_account_info: &AccountInfo,
    current_index: u16,
    signer: [u8; 32],
    signature: [u8; 64],
    message: Vec<u8>,
) -> (r: Result<(), ErrorCode>)
    ensures
        current_index == 0 ==> r == Err::<(), ErrorCode>(ErrorCode::MissingEd25519Instruction),
        current_index > 0 ==> (r matches Err(ErrorCode::InstructionsSysvar(_))) || (exists|
            program_id: Seq<u8>,
            data: Seq<u8>,
        |
            r == verification(program_id, data, signer@, signature@, message@)),
{
    let at = match preceding_index(current_index) {
        None => { return Err(ErrorCode::MissingEd25519Instruction); },
        Some(at) => at,
    };
    let instruction = match load_instruction_at(at, ix_sysvar_account_info) {
        Err(e) => { return Err(ErrorCode::InstructionsSysvar(e)); },
        Ok(instruction) => instruction,
    };
    verify_instruction(&instruction, &signer, &signature, message.as_slice())
}

/// An instruction is accepted exactly when it is addressed to the Ed25519
/// program, asserts one signature, and carries the expected public key,
/// message and signature where its header says.
pub proof fn accepted_exactly_when_asserted(
    program_id: Seq<u8>,
    data: Seq<u8>,
    signer: Seq<u8>,
    signature: Seq<u8>,
    message: Seq<u8>,
)
    ensures
        verification(program_id, data, signer, signature, message) is Ok <==> asserts_signature(
            program_id,
            data,
            signer,
            signature,
            message,
        ),
{
}

/// An instruction of the Ed25519 program with a whole header that asserts no
/// signature, or more than one, is refused for that, whatever else it holds
/// and whatever is expected.
pub proof fn other_signature_counts_are_refused(
    data: Seq<u8>,
    signer: Seq<u8>,
    signature: Seq<u8>,
    message: Seq<u8>,
)
    requires
        data.len() >= LAYOUT_SIZE,
        data[0] != 1,
    ensures
        verification(ed25519_program_id(), data, signer, signature, message) == Err::<
            (),
            ErrorCode,
        >(ErrorCode::InvalidEd25519Instruction),
{
}

/// An instruction addressed to any other program is refused for that,
/// whatever it holds.
pub proof fn other_programs_are_refused(
    program_id: Seq<u8>,
    data: Seq<u8>,
    signer: Seq<u8>,
    signature: Seq<u8>,
    message: Seq<u8>,
)
    requires
        program_id != ed25519_program_id(),
    ensures
        verification(program_id, data, signer, signature, message) == Err::<(), ErrorCode>(
            ErrorCode::InvalidEd25519Program,
        ),
{
}

/// An instruction that is accepted for one signer is refused for every
/// other, as one that verified another public key. A signer that is not 32
/// bytes long is never accepted.
pub proof fn other_signers_are_refused(
    program_id: Seq<u8>,
    data: Seq<u8>,
    signer: Seq<u8>,
    signature: Seq<u8>,
    message: Seq<u8>,
    other: Seq<u8>,
)
    requires
        verification(program_id, data, signer, signature, message) is Ok,
        other != signer,
    ensures
        signer.len() == PUBLIC_KEY_SIZE,
        verification(program_id, data, other, signature, message) == Err::<(), ErrorCode>(
            ErrorCode::InvalidPublicKey,
        ),
{
}

/// An instruction that is accepted for one message is refused for every
/// other, as one that verified another message.
pub proof fn other_messages_are_refused(
    program_id: Seq<u8>,
    data: Seq<u8>,
    signer: Seq<u8>,
    signature: Seq<u8>,
    message: Seq<u8>,
    other: Seq<u8>,
)
    requires
        verification(program_id, data, signer, signature, message) is Ok,
        other != message,
    ensures
        verification(program_id, data, signer, signature, other) == Err::<(), ErrorCode>(
            ErrorCode::InvalidMessage,
        ),
{
}

/// An instruction that is accepted for one signature is refused for every
/// other, as one that verified another signature.
pub proof fn other_signatures_are_refused(
    program_id: Seq<u8>,
    data: Seq<u8>,
    signer: Seq<u8>,
    signature: Seq<u8>,
    message: Seq<u8>,
    other: Seq<u8>,
)
    requires
        verification(program_id, data, signer, signature, message) is Ok,
        other != signature,
    ensures
        verification(program_id, data, signer, other, message) == Err::<(), ErrorCode>(
            ErrorCode::InvalidSignature,
        ),
{
}

/// Whether the byte at `at` belongs to the field of `len` bytes at `offset`.
pub open spec fn within(at: int, offset: int, len: int) -> bool {
    offset <= at < offset + len
}

/// Changing one byte behind the header of an accepted instruction leaves it
/// accepted only if the byte belongs to none of the three fields. Else it is
/// refused for the first of public key, message and signature that holds
/// the byte.
pub proof fn altered_data_is_refused(
    program_id: Seq<u8>,
    data: Seq<u8>,
    signer: Seq<u8>,
    signature: Seq<u8>,
    message: Seq<u8>,
    at: int,
    byte: u8,
)
    requires
        verification(program_id, data, signer, signature, message) is Ok,
        LAYOUT_SIZE <= at < data.len(),
        byte != data[at],
    ensures
        verification(program_id, data.update(at, byte), signer, signature, message) == ({
            let layout = Ed25519InstructionLayout::parse(data);
            if within(at, layout.public_key_offset as int, PUBLIC_KEY_SIZE as int) {
                Err::<(), ErrorCode>(ErrorCode::InvalidPublicKey)
            } else if within(
                at,
                layout.message_data_offset as int,
                layout.message_data_size as int,
            ) {
                Err::<(), ErrorCode>(ErrorCode::InvalidMessage)
            } else if within(at, layout.signature_offset as int, SIGNATURE_SIZE as int) {
                Err::<(), ErrorCode>(ErrorCode::InvalidSignature)
            } else {
                Ok::<(), ErrorCode>(())
            }
        }),
{
    let layout = Ed25519InstructionLayout::parse(data);
    let altered = data.update(at, byte);
    assert(Ed25519InstructionLayout::parse(altered) == layout);
    window_of_altered_data(data, layout.public_key_offset as int, PUBLIC_KEY_SIZE as int, at, byte);
    window_of_altered_data(
        data,
        layout.message_data_offset as int,
        layout.message_data_size as int,
        at,
        byte,
    );
    window_of_altered_data(data, layout.signature_offset as int, SIGNATURE_SIZE as int, at, byte);
}

} // verus!
