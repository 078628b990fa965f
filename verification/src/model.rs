//! A verified model of what one invocation of this program does to the
//! mint account it is aimed at.
//!
//! The program itself only constructs an initialize-mint request — which
//! fails when the named token program is not the token program's declared
//! address — and forwards it; the mint account is read and written
//! downstream, by the token program and the host runtime. This module states
//! that behaviour over plain values — a mint record, its owning program,
//! its lamport balance — and proves the transition's properties: exactly
//! when it succeeds, what the record holds afterwards, and that a failed
//! attempt leaves the account as it was.

use crate::address::{address_eq, Address};
use crate::instruction::{spl_token_program_id, SPL_TOKEN_PROGRAM_ID_BYTES};
use crate::{has_required_accounts, MINT_DECIMALS, REQUIRED_ACCOUNTS};
use vstd::prelude::*;

verus! {

/// Byte length of a serialized mint record.
pub const MINT_RECORD_LEN: usize = 82;

/// The fields of a mint record, as the token program keeps them in the
/// mint account's data.
#[derive(Clone, Copy, Debug, PartialEq, Eq)]
pub struct MintRecord {
    /// Set once the record has been initialized; never cleared.
    pub is_initialized: bool,
    /// Total supply of the token; zero for a freshly zeroed account.
    pub supply: u64,
    /// Number of base-10 digits to the right of the decimal place.
    pub decimals: u8,
    /// The authority allowed to mint new tokens, once initialized.
    pub mint_authority: Option<Address>,
    /// The authority allowed to freeze token accounts; this program never
    /// sets one.
    pub freeze_authority: Option<Address>,
}

/// The mint account as the downstream checks see it: which program owns
/// it, its lamport balance, how many data bytes it was allocated, and the
/// record those bytes hold.
#[derive(Clone, Copy, Debug, PartialEq, Eq)]
pub struct MintAccount {
    pub owner: Address,
    pub lamports: u64,
    pub data_len: usize,
    pub record: MintRecord,
}

/// Why an initialize-mint request is refused downstream.
#[derive(Clone, Copy, Debug, PartialEq, Eq)]
pub enum InitializeMintError {
    /// The account's data is not exactly one mint record long.
    WrongDataLength,
    /// The record was already initialized; a mint can be initialized at
    /// most once.
    AlreadyInitialized,
    /// The account's balance is below the rent-exemption minimum.
    NotRentExempt,
    /// The account is not owned by the token program the request names, so
    /// that program may not write it.
    NotOwnedByTokenProgram,
}

/// Why a whole invocation of this program fails.
#[derive(Clone, Copy, Debug, PartialEq, Eq)]
pub enum ProcessFailure {
    /// Fewer than the required four account handles were supplied; nothing
    /// was forwarded downstream.
    NotEnoughAccounts,
    /// The sub-instruction could not be constructed: the named token
    /// program is not the token program's declared address, so no request
    /// was forwarded.
    UnknownTokenProgram,
    /// The forwarded initialize-mint request was refused downstream.
    Mint(InitializeMintError),
}

/// True when an initialize-mint request on `account`, addressed to
/// `token_program`, is accepted: the account holds exactly one
/// still-uninitialized record, is rent exempt, and is owned by that token
/// program.
pub open spec fn can_initialize(
    account: MintAccount,
    token_program: Address,
    rent_minimum: u64,
) -> bool {
    &&& account.data_len == MINT_RECORD_LEN
    &&& !account.record.is_initialized
    &&& account.lamports >= rent_minimum
    &&& account.owner@ == token_program@
}

/// The mint account after a successful initialization: same owner,
/// balance and allocation; the record initialized with the given decimal
/// count, the given mint authority, and no freeze authority.
pub open spec fn initialized_mint(
    account: MintAccount,
    authority: Address,
    decimals: u8,
) -> MintAccount {
    MintAccount {
        record: MintRecord {
            is_initialized: true,
            supply: account.record.supply,
            decimals,
            mint_authority: Some(authority),
            freeze_authority: None,
        },
        ..account
    }
}

/// The checks an initialize-mint request passes through, in the order the
/// downstream system applies them: the record's shape and initialization
/// flag and the rent balance are examined by the token program before it
/// writes, and the ownership rule is enforced by the host runtime when the
/// write lands.
pub open spec fn initialize_mint_spec(
    account: MintAccount,
    token_program: Address,
    authority: Address,
    decimals: u8,
    rent_minimum: u64,
) -> Result<MintAccount, InitializeMintError> {
    if account.data_len != MINT_RECORD_LEN {
        Err(InitializeMintError::WrongDataLength)
    } else if account.record.is_initialized {
        Err(InitializeMintError::AlreadyInitialized)
    } else if account.lamports < rent_minimum {
        Err(InitializeMintError::NotRentExempt)
    } else if account.owner@ != token_program@ {
        Err(InitializeMintError::NotOwnedByTokenProgram)
    } else {
        Ok(initialized_mint(account, authority, decimals))
    }
}

/// Applies one initialize-mint request to a mint account.
///
/// The request succeeds exactly on the accounts `can_initialize` accepts;
/// on success the record is initialized as `initialized_mint` states, and
/// on failure the account is left exactly as it was.
pub fn initialize_mint_account(
    account: &mut MintAccount,
    token_program: &Address,
    authority: &Address,
    decimals: u8,
    rent_minimum: u64,
) -> (r: Result<(), InitializeMintError>)
    ensures
        r is Ok <==> can_initialize(*old(account), *token_program, rent_minimum),
        r is Ok ==> *final(account) == initialized_mint(*old(account), *authority, decimals),
        r matches Err(e) ==> *final(account) == *old(account)
            && (initialize_mint_spec(
            *old(account),
            *token_program,
            *authority,
            decimals,
            rent_minimum,
        ) == Err::<MintAccount, InitializeMintError>(e)),
{
    if account.data_len != MINT_RECORD_LEN {
        return Err(InitializeMintError::WrongDataLength);
    }
    if account.record.is_initialized {
        return Err(InitializeMintError::AlreadyInitialized);
    }
    if account.lamports < rent_minimum {
        return Err(InitializeMintError::NotRentExempt);
    }
    if !address_eq(&account.owner, token_program) {
        return Err(InitializeMintError::NotOwnedByTokenProgram);
    }
    let supply = account.record.supply;
    account.record = MintRecord {
        is_initialized: true,
        supply,
        decimals,
        mint_authority: Some(*authority),
        freeze_authority: None,
    };
    Ok(())
}

/// One whole invocation over plain values: extract the token program and
/// authority addresses from the account list, construct the sub-instruction
/// — which fails when the named token program is not the token program's
/// declared address — and apply the initialize-mint request with the fixed
/// decimal count.
///
/// The account list is, in order: mint, rent sysvar, token program,
/// authority; only the last two addresses take part in the decision, the
/// mint account itself being passed as its state.
pub open spec fn process_spec(
    accounts: Seq<Address>,
    mint_account: MintAccount,
    rent_minimum: u64,
) -> Result<MintAccount, ProcessFailure> {
    if !has_required_accounts(accounts.len()) {
        Err(ProcessFailure::NotEnoughAccounts)
    } else if accounts[2]@ != spl_token_program_id() {
        Err(ProcessFailure::UnknownTokenProgram)
    } else {
        match initialize_mint_spec(
            mint_account,
            accounts[2],
            accounts[3],
            MINT_DECIMALS,
            rent_minimum,
        ) {
            Ok(updated) => Ok(updated),
            Err(e) => Err(ProcessFailure::Mint(e)),
        }
    }
}

/// Runs one invocation against a mint account, as `process_spec` states.
///
/// With fewer than the required accounts the invocation fails before the
/// mint account is read; with an unknown token program it fails at
/// construction, before any request is forwarded; any downstream refusal
/// is surfaced unchanged; and on every failure the mint account is left
/// exactly as it was.
pub fn process_mint_invocation(
    accounts: &Vec<Address>,
    mint_account: &mut MintAccount,
    rent_minimum: u64,
) -> (r: Result<(), ProcessFailure>)
    ensures
        r is Ok <==> process_spec(accounts@, *old(mint_account), rent_minimum) is Ok,
        r is Ok ==> *final(mint_account) == process_spec(
            accounts@,
            *old(mint_account),
            rent_minimum,
        )->Ok_0,
        r matches Err(e) ==> *final(mint_account) == *old(mint_account)
            && (process_spec(accounts@, *old(mint_account), rent_minimum)
            == Err::<MintAccount, ProcessFailure>(e)),
{
    if accounts.len() < REQUIRED_ACCOUNTS {
        return Err(ProcessFailure::NotEnoughAccounts);
    }
    let token_program = accounts[2];
    let authority = accounts[3];
    let declared = Address { bytes: SPL_TOKEN_PROGRAM_ID_BYTES };
    if !address_eq(&token_program, &declared) {
        return Err(ProcessFailure::UnknownTokenProgram);
    }
    match initialize_mint_account(
        mint_account,
        &token_program,
        &authority,
        MINT_DECIMALS,
        rent_minimum,
    ) {
        Ok(()) => Ok(()),
        Err(e) => Err(ProcessFailure::Mint(e)),
    }
}

/// A mint can be initialized at most once: after a successful
/// initialization, a second request on the resulting account fails as
/// already initialized — whatever token program, authority, decimal count
/// or rent parameters the second request uses — and so produces no new
/// account state.
pub proof fn lemma_initialize_at_most_once(
    account: MintAccount,
    token_program: Address,
    authority: Address,
    decimals: u8,
    rent_minimum: u64,
    second_token_program: Address,
    second_authority: Address,
    second_decimals: u8,
    second_rent_minimum: u64,
)
    requires
        initialize_mint_spec(account, token_program, authority, decimals, rent_minimum) is Ok,
    ensures
        initialize_mint_spec(
            initialize_mint_spec(account, token_program, authority, decimals, rent_minimum)->Ok_0,
            second_token_program,
            second_authority,
            second_decimals,
            second_rent_minimum,
        ) == Err::<MintAccount, InitializeMintError>(InitializeMintError::AlreadyInitialized),
{
}

/// An invocation that supplies the required accounts, names the token
/// program by its declared address, and aims at a mint account that
/// `can_initialize` accepts for that token program succeeds, and leaves
/// the record initialized with the fixed decimal count, the supplied
/// authority as mint authority, and no freeze authority.
pub proof fn lemma_valid_invocation_initializes(
    accounts: Seq<Address>,
    mint_account: MintAccount,
    rent_minimum: u64,
)
    requires
        has_required_accounts(accounts.len()),
        accounts[2]@ == spl_token_program_id(),
        can_initialize(mint_account, accounts[2], rent_minimum),
    ensures
        process_spec(accounts, mint_account, rent_minimum) is Ok,
        process_spec(accounts, mint_account, rent_minimum)->Ok_0 == initialized_mint(
            mint_account,
            accounts[3],
            MINT_DECIMALS,
        ),
        process_spec(accounts, mint_account, rent_minimum)->Ok_0.record.is_initialized,
        process_spec(accounts, mint_account, rent_minimum)->Ok_0.record.decimals
            == MINT_DECIMALS,
        process_spec(accounts, mint_account, rent_minimum)->Ok_0.record.mint_authority
            == Some(accounts[3]),
        process_spec(accounts, mint_account, rent_minimum)->Ok_0.record.freeze_authority
            is None,
{
}

} // verus!
