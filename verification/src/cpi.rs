//! The trusted boundary to the host runtime and the token program.
//!
//! The host hands this program opaque account handles; the token program
//! builds the initialize-mint instruction and, through the host's
//! cross-program invocation facility, executes it. This module declares
//! those outside types and wraps the calls the program makes into them,
//! with contracts stating what their sources show.

use crate::address::Address;
use crate::instruction::{
    describes_initialize_mint, spl_token_program_id, AccountDescriptor, SubInstruction,
};
use solana_program::account_info::AccountInfo;
use solana_program::instruction::{AccountMeta, Instruction};
use solana_program::program_error::ProgramError;
use solana_program::pubkey::Pubkey;
use vstd::prelude::*;

verus! {

#[verifier::external_type_specification]
#[verifier::external_body]
pub struct ExPubkey(Pubkey);

#[verifier::external_type_specification]
#[verifier::external_body]
pub struct ExAccountInfo<'a>(AccountInfo<'a>);

#[verifier::external_type_specification]
pub struct ExAccountMeta(AccountMeta);

#[verifier::external_type_specification]
pub struct ExInstruction(Instruction);

#[verifier::external_type_specification]
pub struct ExProgramError(ProgramError);

/// Relies on the `key` field of `solana_program::account_info::AccountInfo`
/// and `Pubkey::to_bytes`: the address of the account the handle refers
/// to, as plain bytes. The handle is opaque here, so nothing relates the
/// result to it.
#[verifier::external_body]
pub(crate) fn account_address(account: &AccountInfo<'_>) -> Address {
    Address { bytes: account.key.to_bytes() }
}

/// Relies on `spl_token::instruction::initialize_mint`: it fails, with
/// `IncorrectProgramId` as its only error, exactly when `token_program` is
/// not the token program's declared address; otherwise it returns the
/// initialize-mint instruction addressed to the token program, naming the
/// mint as its only writable account followed by the read-only rent
/// sysvar, with the instruction data encoding the decimal count, the mint
/// authority, and no freeze authority. The returned description restates
/// that instruction's fields through `Pubkey::to_bytes`.
#[verifier::external_body]
pub(crate) fn spl_initialize_mint(
    token_program: &Address,
    mint: &Address,
    authority: &Address,
    decimals: u8,
) -> (r: Result<(Instruction, SubInstruction), ProgramError>)
    ensures
        r is Ok <==> token_program@ == spl_token_program_id(),
        r matches Ok(p) ==> describes_initialize_mint(
            p.1,
            token_program@,
            mint@,
            authority@,
            decimals,
        ),
        r matches Err(e) ==> e == ProgramError::IncorrectProgramId,
{
    let ix = spl_token::instruction::initialize_mint(
        &Pubkey::new_from_array(token_program.bytes),
        &Pubkey::new_from_array(mint.bytes),
        &Pubkey::new_from_array(authority.bytes),
        None,
        decimals,
    )?;
    let accounts = ix.accounts.iter().map(|m| AccountDescriptor {
        address: Address { bytes: m.pubkey.to_bytes() },
        is_signer: m.is_signer,
        is_writable: m.is_writable,
    }).collect();
    let program = Address { bytes: ix.program_id.to_bytes() };
    let payload = ix.data.clone();
    Ok((ix, SubInstruction { program, accounts, payload }))
}

/// Relies on `solana_program::program::invoke_signed`: it hands the
/// instruction and the three accounts to the host's cross-program
/// invocation facility with the given signer-seed set. The outcome depends
/// on the host runtime and on the callee, so nothing is assumed of the
/// result.
#[verifier::external_body]
pub(crate) fn invoke_signed_cpi<'a>(
    instruction: &Instruction,
    token_mint: &AccountInfo<'a>,
    rent_sysvar: &AccountInfo<'a>,
    token_program: &AccountInfo<'a>,
    signer_seeds: &[&[u8]],
) -> Result<(), ProgramError> {
    solana_program::program::invoke_signed(
        instruction,
        &[token_mint.clone(), rent_sysvar.clone(), token_program.clone()],
        &[signer_seeds],
    )
}

} // verus!
