//! The instructions of the transaction in which the program runs.
//!
//! A program learns of the other instructions of its transaction from the
//! instructions sysvar account. Which of them matters here is fixed: the one
//! immediately before the instruction that is running.
use solana_program::account_info::AccountInfo;
use solana_program::program_error::ProgramError;
use vstd::prelude::*;

verus! {

/// `solana_program::account_info::AccountInfo`: an account as the runtime
/// hands it to the program. It is passed on to the lookup and never read
/// here.
#[verifier::external_type_specification]
#[verifier::external_body]
pub struct ExAccountInfo<'a>(AccountInfo<'a>);

/// `solana_program::program_error::ProgramError`: why the lookup failed. It
/// is passed on to the caller and never read here.
#[verifier::external_type_specification]
#[verifier::external_body]
pub struct ExProgramError(ProgramError);

/// What this crate reads of an instruction: the program it is addressed to
/// and the data it carries.
#[derive(Debug, Clone, PartialEq, Eq)]
pub struct Instruction {
    pub program_id: [u8; 32],
    pub data: Vec<u8>,
}

/// The position of the instruction immediately before the one at
/// `current_index`, if there is one.
pub fn preceding_index(current_index: u16) -> (at: Option<usize>)
    ensures
        current_index == 0 ==> at is None,
        current_index > 0 ==> at == Some((current_index - 1) as usize),
{
    if current_index == 0 {
        None
    } else {
        Some((current_index - 1) as usize)
    }
}

/// `solana_program::sysvar::instructions::load_instruction_at_checked`, with
/// the program id and the data of the instruction that it returns; its
/// account list is dropped.
///
/// Nothing is claimed of the outcome. It depends on what the account holds:
/// the call fails unless the account is the instructions sysvar, its data can
/// be borrowed, and an instruction can be read from it at `index`.
#[verifier::external_body]
#[allow(deprecated)]
pub(crate) fn load_instruction_at(index: usize, account: &AccountInfo) -> Result<
    Instruction,
    ProgramError,
> {
    let loaded = solana_program::sysvar::instructions::load_instruction_at_checked(index, account)?;
    Ok(Instruction { program_id: loaded.program_id.to_bytes(), data: loaded.data })
}

} // verus!
