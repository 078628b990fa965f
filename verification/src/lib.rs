//! A minimal on-chain program that initializes a fungible-token mint by
//! forwarding an initialize-mint request to the token program named in its
//! account list.
//!
//! The entry point extracts four account handles positionally — mint, rent
//! sysvar, token program, authority — and issues one cross-program call
//! with a fixed decimal count, the extracted authority as mint authority,
//! no freeze authority, and an empty signer-seed set. The program holds no
//! state of its own; the mint record lives in the mint account and is
//! written by the token program. What that downstream write does to the
//! mint account is stated and proved over plain values in the model
//! module.

mod address;
mod cpi;
mod instruction;
mod model;

use solana_program::account_info::AccountInfo;
use solana_program::instruction::Instruction;
use solana_program::program_error::ProgramError;
use solana_program::pubkey::Pubkey;
use vstd::prelude::*;

pub use address::{address_eq, Address, ADDRESS_LEN};
pub use instruction::{
    describes_initialize_mint, initialize_mint_payload, rent_sysvar_id, spl_token_program_id,
    AccountDescriptor, SubInstruction, RENT_SYSVAR_ID_BYTES, SPL_TOKEN_PROGRAM_ID_BYTES,
};
pub use model::{
    can_initialize, initialize_mint_account, initialize_mint_spec, initialized_mint,
    lemma_initialize_at_most_once, lemma_valid_invocation_initializes, process_mint_invocation,
    process_spec, InitializeMintError, MintAccount, MintRecord, ProcessFailure, MINT_RECORD_LEN,
};

verus! {

/// Decimal precision of every mint this program initializes; fixed by design.
pub const MINT_DECIMALS: u8 = 6;

/// Number of account handles the entry point requires, in order:
/// mint, rent sysvar, token program, authority.
pub const REQUIRED_ACCOUNTS: usize = 4;

/// Instruction-data tag of the token program's initialize-mint operation.
pub const INITIALIZE_MINT_TAG: u8 = 0;

/// Instruction-data tag for an absent optional authority.
pub const AUTHORITY_NONE_TAG: u8 = 0;

/// True when an invocation supplies enough account handles to proceed.
pub open spec fn has_required_accounts(n: nat) -> bool {
    n >= REQUIRED_ACCOUNTS
}

/// Builds the initialize-mint instruction addressed to `token_program`,
/// for `mint`, with `authority` as mint authority and no freeze authority,
/// returning it together with its description as plain values.
///
/// The build succeeds if and only if `token_program` is the token
/// program's declared address, and fails with `IncorrectProgramId` as its
/// only error; success or failure, no account is touched. On success the
/// description pins every field of the sub-instruction, so equal inputs
/// describe the same delegated call.
pub fn build_initialize_mint(
    token_program: &Address,
    mint: &Address,
    authority: &Address,
    decimals: u8,
) -> (r: Result<(Instruction, SubInstruction), ProgramError>)
    ensures
        r is Ok <==> token_program@ == spl_token_program_id(),
        r matches Ok(p) ==> describes_initialize_mint(
            p.1,
            token_program@,
            mint@,
            authority@,
            decimals,
        ),
        r matches Err(e) ==> e == ProgramError::IncorrectProgramId,
{
    cpi::spl_initialize_mint(token_program, mint, authority, decimals)
}

/// Builds the initialize-mint instruction and issues it as a cross-program
/// call with the given signer-seed set, passing the mint, rent-sysvar and
/// token-program handles in that order. The mint and token-program
/// addresses accompany their handles as plain values, since the contract
/// can only speak about those.
///
/// A build failure — `IncorrectProgramId`, exactly when the named token
/// program is not the token program's declared address — is returned
/// without any call being issued; otherwise the call's outcome, which
/// rests with the host runtime and the token program, is propagated
/// verbatim.
fn create_token_mint<'a>(
    token_mint: &AccountInfo<'a>,
    rent_sysvar: &AccountInfo<'a>,
    token_program: &AccountInfo<'a>,
    mint_address: &Address,
    token_program_address: &Address,
    authority: &Address,
    decimals: u8,
    signer_seeds: &[&[u8]],
) -> (r: Result<(), ProgramError>)
    ensures
        token_program_address@ != spl_token_program_id() ==> r == Err::<(), ProgramError>(
            ProgramError::IncorrectProgramId,
        ),
        r is Ok ==> token_program_address@ == spl_token_program_id(),
{
    let ix = match build_initialize_mint(token_program_address, mint_address, authority, decimals)
    {
        Ok((ix, _)) => ix,
        Err(e) => {
            return Err(e);
        },
    };
    cpi::invoke_signed_cpi(&ix, token_mint, rent_sysvar, token_program, signer_seeds)
}

/// The program's entry point: extracts the mint, rent-sysvar,
/// token-program and authority handles positionally, then forwards one
/// initialize-mint request with the fixed decimal count and an empty
/// signer-seed set. The instruction payload is ignored.
///
/// With fewer than the required four account handles it fails at once,
/// before anything is read or forwarded; otherwise it propagates the
/// forwarded call's outcome verbatim.
pub fn process_instruction<'a>(
    program_id: &Pubkey,
    accounts: &'a [AccountInfo<'a>],
    instruction_data: &'a [u8],
) -> (r: Result<(), ProgramError>)
    ensures
        accounts@.len() < REQUIRED_ACCOUNTS ==> r == Err::<(), ProgramError>(
            ProgramError::NotEnoughAccountKeys,
        ),
        r is Ok ==> has_required_accounts(accounts@.len()),
{
    if accounts.len() < REQUIRED_ACCOUNTS {
        return Err(ProgramError::NotEnoughAccountKeys);
    }
    let token_mint = &accounts[0];
    let rent_sysvar = &accounts[1];
    let token_program = &accounts[2];
    let mint_address = cpi::account_address(token_mint);
    let token_program_address = cpi::account_address(token_program);
    let authority = cpi::account_address(&accounts[3]);
    let signer_seeds: &[&[u8]] = &[];
    create_token_mint(
        token_mint,
        rent_sysvar,
        token_program,
        &mint_address,
        &token_program_address,
        &authority,
        MINT_DECIMALS,
        signer_seeds,
    )
}

} // verus!
