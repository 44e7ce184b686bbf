//! A registry of signed agreements for the Solana virtual machine.
//!
//! An agreement is an ordered list of key/value pairs that a signer has
//! approved. Signatures are never checked here: the native Ed25519 and
//! secp256k1 programs do that. What this crate establishes is that the
//! instruction placed immediately before the current one in the transaction
//! is such a native program instruction, and that it asserts exactly one
//! signature over exactly the expected signer, message and signature bytes.
//! Only then does it hand out the entry to store.
use solana_program::account_info::AccountInfo;
use vstd::prelude::*;

use crate::utils::ed25519;
use crate::utils::instructions::Instruction;
use crate::utils::offchain_message::{
    format_message, lengths_fit, message_determines_the_pairs, offchain_message, KeyValuePair,
    Pair,
};
use crate::utils::secp256k1;

pub mod utils;

verus! {

/// An agreement as it is stored: the pairs in the order in which they were
/// signed, who signed, and the signature.
#[derive(Debug, Clone, PartialEq, Eq)]
pub struct DataEntry {
    pub kv_pairs: Vec<KeyValuePair>,
    pub signer: [u8; 32],
    pub signature: [u8; 64],
}

/// What an entry holds, as bytes.
pub ghost struct Entry {
    pub kv_pairs: Seq<Pair>,
    pub signer: Seq<u8>,
    pub signature: Seq<u8>,
}

impl View for DataEntry {
    type V = Entry;

    open spec fn view(&self) -> Entry {
        Entry {
            kv_pairs: self.kv_pairs.deep_view(),
            signer: self.signer@,
            signature: self.signature@,
        }
    }
}

/// Whether `r` is `expected`: the same refusal, or an entry that holds what
/// is expected.
pub open spec fn yields<E>(r: Result<DataEntry, E>, expected: Result<Entry, E>) -> bool {
    match expected {
        Ok(entry) => r matches Ok(found) && found@ == entry,
        Err(refusal) => r == Err::<DataEntry, E>(refusal),
    }
}

/// The outcome for an agreement signed with an Ed25519 key, given the
/// program id and the data of the preceding instruction. The message that
/// must have been signed is that of the pairs. Where the instruction asserts
/// the signature over it, the entry holds what was proposed.
pub open spec fn ed25519_entry(
    program_id: Seq<u8>,
    data: Seq<u8>,
    kv_pairs: Seq<Pair>,
    signer: Seq<u8>,
    signature: Seq<u8>,
) -> Result<Entry, ed25519::ErrorCode> {
    if !lengths_fit(kv_pairs) {
        Err(ed25519::ErrorCode::LengthOverflow)
    } else {
        match ed25519::verification(
            program_id,
            data,
            signer,
            signature,
            offchain_message(kv_pairs),
        ) {
            Err(refusal) => Err(refusal),
            Ok(_) => Ok(Entry { kv_pairs, signer, signature }),
        }
    }
}

/// The outcome for an agreement signed with a secp256k1 key, given the
/// program id and the data of the preceding instruction, and the message
/// that the caller says was signed. Where the instruction asserts the
/// signature over it, the entry holds what was proposed; its signer is the
/// address behind twelve zero bytes.
pub open spec fn secp256k1_entry(
    program_id: Seq<u8>,
    data: Seq<u8>,
    kv_pairs: Seq<Pair>,
    signer: Seq<u8>,
    signature: Seq<u8>,
    message: Seq<u8>,
) -> Result<Entry, secp256k1::ErrorCode> {
    match secp256k1::verification(program_id, data, signer, signature, message) {
        Err(refusal) => Err(refusal),
        Ok(_) => Ok(Entry { kv_pairs, signer: secp256k1::left_padded(signer), signature }),
    }
}

/// Builds the entry to store for an agreement signed with an Ed25519 key,
/// provided that `instruction`, the instruction that precedes the current
/// one, asserts the signature over the message of these pairs.
pub fn checked_entry(
    instruction: &Instruction,
    kv_pairs: Vec<KeyValuePair>,
    signer: [u8; 32],
    signature: [u8; 64],
) -> (r: Result<DataEntry, ed25519::ErrorCode>)
    ensures
        yields(
            r,
            ed25519_entry(
                instruction.program_id@,
                instruction.data@,
                kv_pairs.deep_view(),
                signer@,
                signature@,
            ),
        ),
{
    let message = format_message(&kv_pairs)?;
    ed25519::verify_instruction(instruction, &signer, &signature, message.as_slice())?;
    Ok(DataEntry { kv_pairs, signer, signature })
}

/// An entry is handed out only for the pairs that were signed: where the
/// preceding instruction asserts a signature over the message of one
/// agreement, a proposal is accepted for no other.
pub proof fn stored_pairs_are_the_signed_ones(
    program_id: Seq<u8>,
    data: Seq<u8>,
    signed: Seq<Pair>,
    proposed: Seq<Pair>,
    signer: Seq<u8>,
    signature: Seq<u8>,
)
    requires
        lengths_fit(signed),
        ed25519::message_field(data) == Some(offchain_message(signed)),
        ed25519_entry(program_id, data, proposed, signer, signature) is Ok,
    ensures
        proposed == signed,
        ed25519_entry(program_id, data, proposed, signer, signature) == Ok::<
            Entry,
            ed25519::ErrorCode,
        >(Entry { kv_pairs: signed, signer, signature }),
{
    message_determines_the_pairs(signed, proposed);
}

/// Accepts an agreement signed with an Ed25519 key and hands out the entry
/// to store.
///
/// The message is computed from `kv_pairs`; the caller supplies none.
/// `ix_sysvar_account_info` is the instructions sysvar account, and
/// `current_index` the index that the sysvar gives for the instruction that
/// is running. Where the preceding instruction can be read, the outcome is
/// that of [`checked_entry`] on it.
pub fn propose_and_sign_agreement(
    ix_sysvar_account_info: &AccountInfo,
    current_index: u16,
    kv_pairs: Vec<KeyValuePair>,
    signer: [u8; 32],
    signature: [u8; 64],
) -> (r: Result<DataEntry, ed25519::ErrorCode>)
    ensures
        !lengths_fit(kv_pairs.deep_view()) ==> r == Err::<DataEntry, ed25519::ErrorCode>(
            ed25519::ErrorCode::LengthOverflow,
        ),
        lengths_fit(kv_pairs.deep_view()) && current_index == 0 ==> r == Err::<
            DataEntry,
            ed25519::ErrorCode,
        >(ed25519::ErrorCode::MissingEd25519Instruction),
        lengths_fit(kv_pairs.deep_view()) && current_index > 0 ==> (r matches Err(
            ed25519::ErrorCode::InstructionsSysvar(_),
        )) || (exists|program_id: Seq<u8>, data: Seq<u8>|
            yields(
                r,
                ed25519_entry(program_id, data, kv_pairs.deep_view(), signer@, signature@),
            )),
{
    let message = format_message(&kv_pairs)?;
    let ghost signed = message@;
    let verdict = ed25519::verify_signature(
        ix_sysvar_account_info,
        current_index,
        signer,
        signature,
        message,
    );
    let ghost found = verdict;
    let r = match verdict {
        Err(refusal) => Err(refusal),
        Ok(_) => Ok(DataEntry { kv_pairs, signer, signature }),
    };
    proof {
        if current_index > 0 && !(found matches Err(ed25519::ErrorCode::InstructionsSysvar(_))) {
            let (program_id, data) = choose|program_id: Seq<u8>, data: Seq<u8>|
                found == ed25519::verification(program_id, data, signer@, signature@, signed);
            assert(yields(
                r,
                ed25519_entry(program_id, data, kv_pairs.deep_view(), signer@, signature@),
            ));
        }
    }
    r
}

/// The address of a secp256k1 key in the 32 bytes of a stored signer: twelve
/// zero bytes, then the address.
pub fn padded_address(signer: &[u8; 20]) -> (padded: [u8; 32])
    ensures
        padded@ == secp256k1::left_padded(signer@),
{
    let mut padded = [0u8; 32];
    let mut i: usize = 0;
    while i < 20
        invariant
            i <= 20,
            forall|k: int| 0 <= k < 12 ==> padded@[k] == 0u8,
            forall|k: int| 0 <= k < i ==> padded@[12 + k] == signer@[k],
        decreases 20 - i,
    {
        padded[12 + i] = signer[i];
        i += 1;
    }
    assert(padded@ =~= secp256k1::left_padded(signer@));
    padded
}

/// Builds the entry to store for an agreement signed with a secp256k1 key,
/// provided that `instruction`, the instruction that precedes the current
/// one, asserts the signature over `message`.
///
/// The message is the caller's: it is not held against `kv_pairs`.
pub fn checked_entry_eth(
    instruction: &Instruction,
    kv_pairs: Vec<KeyValuePair>,
    signer: [u8; 20],
    signature: [u8; 64],
    message: &[u8],
) -> (r: Result<DataEntry, secp256k1::ErrorCode>)
    ensures
        yields(
            r,
            secp256k1_entry(
                instruction.program_id@,
                instruction.data@,
                kv_pairs.deep_view(),
                signer@,
                signature@,
                message@,
            ),
        ),
{
    secp256k1::verify_instruction(instruction, &signer, &signature, message)?;
    Ok(DataEntry { kv_pairs, signer: padded_address(&signer), signature })
}

/// Accepts an agreement signed with a secp256k1 key and hands out the entry
/// to store. The signer of the entry is the address behind twelve zero bytes.
///
/// The message is the caller's: it is not held against `kv_pairs`, and
/// `recovery_id` is not held against the instruction.
/// `ix_sysvar_account_info` is the instructions sysvar account, and
/// `current_index` the index that the sysvar gives for the instruction that
/// is running. Where the preceding instruction can be read, the outcome is
/// that of [`checked_entry_eth`] on it.
pub fn propose_and_sign_agreement_eth(
    ix_sysvar_account_info: &AccountInfo,
    current_index: u16,
    kv_pairs: Vec<KeyValuePair>,
    signer: [u8; 20],
    signature: [u8; 64],
    message: Vec<u8>,
    recovery_id: u8,
) -> (r: Result<DataEntry, secp256k1::ErrorCode>)
    ensures
        current_index == 0 ==> r == Err::<DataEntry, secp256k1::ErrorCode>(
            secp256k1::ErrorCode::MissingSecp256k1Instruction,
        ),
        current_index > 0 ==> (r matches Err(secp256k1::ErrorCode::InstructionsSysvar(_))) || (
        exists|program_id: Seq<u8>, data: Seq<u8>|
            yields(
                r,
                secp256k1_entry(
                    program_id,
                    data,
                    kv_pairs.deep_view(),
                    signer@,
                    signature@,
                    message@,
                ),
            )),
{
    let ghost signed = message@;
    let verdict = secp256k1::verify_signature(
        ix_sysvar_account_info,
        current_index,
        signer,
        signature,
        recovery_id,
        message,
    );
    let ghost found = verdict;
    let r = match verdict {
        Err(refusal) => Err(refusal),
        Ok(_) => Ok(DataEntry { kv_pairs, signer: padded_address(&signer), signature }),
    };
    proof {
        if current_index > 0 && !(found matches Err(secp256k1::ErrorCode::InstructionsSysvar(_))) {
            let (program_id, data) = choose|program_id: Seq<u8>, data: Seq<u8>|
                found == secp256k1::verification(program_id, data, signer@, signature@, signed);
            assert(yields(
                r,
                secp256k1_entry(
                    program_id,
                    data,
                    kv_pairs.deep_view(),
                    signer@,
                    signature@,
                    signed,
                ),
            ));
        }
    }
    r
}

} // verus!
