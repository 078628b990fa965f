//! Tests of the entry point and the instruction builder against the real
//! host types, run under the host's off-chain syscall stubs.

use mint_init::{
    build_initialize_mint, process_instruction, Address, MINT_DECIMALS, RENT_SYSVAR_ID_BYTES,
    SPL_TOKEN_PROGRAM_ID_BYTES,
};
use solana_program::account_info::AccountInfo;
use solana_program::program_error::ProgramError;
use solana_program::pubkey::Pubkey;

fn key(tag: u8) -> Pubkey {
    let mut bytes = [0u8; 32];
    bytes[0] = tag;
    Pubkey::new_from_array(bytes)
}

#[test]
fn fewer_than_four_accounts_fails_before_any_call() {
    let program_id = key(1);
    let mint_key = key(2);
    let rent_key = solana_program::sysvar::rent::id();
    let token_program_key = spl_token::id();
    let mut mint_lamports: u64 = 1_000_000_000;
    let mut mint_data = vec![0u8; 82];
    let mut rent_lamports: u64 = 0;
    let mut rent_data = vec![0u8; 0];
    let mut tp_lamports: u64 = 0;
    let mut tp_data = vec![0u8; 0];
    let owner = spl_token::id();
    let sysvar_owner = key(3);
    let accounts = [
        AccountInfo::new(
            &mint_key,
            false,
            true,
            &mut mint_lamports,
            &mut mint_data,
            &owner,
            false,
        ),
        AccountInfo::new(
            &rent_key,
            false,
            false,
            &mut rent_lamports,
            &mut rent_data,
            &sysvar_owner,
            false,
        ),
        AccountInfo::new(
            &token_program_key,
            false,
            false,
            &mut tp_lamports,
            &mut tp_data,
            &sysvar_owner,
            true,
        ),
    ];
    let r = process_instruction(&program_id, &accounts, &[]);
    assert_eq!(r, Err(ProgramError::NotEnoughAccountKeys));
}

#[test]
fn wrong_token_program_id_fails_the_build() {
    let program_id = key(1);
    let mint_key = key(2);
    let rent_key = solana_program::sysvar::rent::id();
    let not_the_token_program = key(9);
    let authority_key = key(4);
    let mut mint_lamports: u64 = 1_000_000_000;
    let mut mint_data = vec![0u8; 82];
    let mut rent_lamports: u64 = 0;
    let mut rent_data = vec![0u8; 0];
    let mut tp_lamports: u64 = 0;
    let mut tp_data = vec![0u8; 0];
    let mut auth_lamports: u64 = 0;
    let mut auth_data = vec![0u8; 0];
    let owner = key(9);
    let sysvar_owner = key(3);
    let accounts = [
        AccountInfo::new(
            &mint_key,
            false,
            true,
            &mut mint_lamports,
            &mut mint_data,
            &owner,
            false,
        ),
        AccountInfo::new(
            &rent_key,
            false,
            false,
            &mut rent_lamports,
            &mut rent_data,
            &sysvar_owner,
            false,
        ),
        AccountInfo::new(
            &not_the_token_program,
            false,
            false,
            &mut tp_lamports,
            &mut tp_data,
            &sysvar_owner,
            true,
        ),
        AccountInfo::new(
            &authority_key,
            false,
            false,
            &mut auth_lamports,
            &mut auth_data,
            &sysvar_owner,
            false,
        ),
    ];
    let r = process_instruction(&program_id, &accounts, &[]);
    assert_eq!(r, Err(ProgramError::IncorrectProgramId));
}

#[test]
fn four_accounts_and_the_token_program_id_reach_the_invocation() {
    let program_id = key(1);
    let mint_key = key(2);
    let rent_key = solana_program::sysvar::rent::id();
    let token_program_key = spl_token::id();
    let authority_key = key(4);
    let mut mint_lamports: u64 = 1_000_000_000;
    let mut mint_data = vec![0u8; 82];
    let mut rent_lamports: u64 = 0;
    let mut rent_data = vec![0u8; 0];
    let mut tp_lamports: u64 = 0;
    let mut tp_data = vec![0u8; 0];
    let mut auth_lamports: u64 = 0;
    let mut auth_data = vec![0u8; 0];
    let owner = spl_token::id();
    let sysvar_owner = key(3);
    let accounts = [
        AccountInfo::new(
            &mint_key,
            false,
            true,
            &mut mint_lamports,
            &mut mint_data,
            &owner,
            false,
        ),
        AccountInfo::new(
            &rent_key,
            false,
            false,
            &mut rent_lamports,
            &mut rent_data,
            &sysvar_owner,
            false,
        ),
        AccountInfo::new(
            &token_program_key,
            false,
            false,
            &mut tp_lamports,
            &mut tp_data,
            &sysvar_owner,
            true,
        ),
        AccountInfo::new(
            &authority_key,
            false,
            false,
            &mut auth_lamports,
            &mut auth_data,
            &sysvar_owner,
            false,
        ),
    ];
    // Off chain, the host's default syscall stub accepts the forwarded
    // invocation, so a well-formed request comes back as success.
    let r = process_instruction(&program_id, &accounts, &[]);
    assert_eq!(r, Ok(()));
}

#[test]
fn declared_ids_match_the_outside_crates() {
    assert_eq!(SPL_TOKEN_PROGRAM_ID_BYTES, spl_token::id().to_bytes());
    assert_eq!(
        RENT_SYSVAR_ID_BYTES,
        solana_program::sysvar::rent::id().to_bytes()
    );
}

#[test]
fn built_instruction_has_the_exact_payload_and_accounts() {
    let mint = Address { bytes: [2u8; 32] };
    let mut authority_bytes = [0u8; 32];
    for (i, b) in authority_bytes.iter_mut().enumerate() {
        *b = i as u8;
    }
    let authority = Address {
        bytes: authority_bytes,
    };
    let token_program = Address {
        bytes: SPL_TOKEN_PROGRAM_ID_BYTES,
    };
    let r = build_initialize_mint(&token_program, &mint, &authority, MINT_DECIMALS);
    let (ix, sub) = r.expect("the build must succeed for the token program's own id");
    let mut expected = vec![0u8, MINT_DECIMALS];
    expected.extend_from_slice(&authority_bytes);
    expected.push(0u8);
    // The real instruction.
    assert_eq!(ix.program_id, spl_token::id());
    assert_eq!(ix.accounts.len(), 2);
    assert_eq!(ix.accounts[0].pubkey, Pubkey::new_from_array(mint.bytes));
    assert!(ix.accounts[0].is_writable);
    assert!(!ix.accounts[0].is_signer);
    assert_eq!(ix.accounts[1].pubkey, solana_program::sysvar::rent::id());
    assert!(!ix.accounts[1].is_writable);
    assert!(!ix.accounts[1].is_signer);
    assert_eq!(ix.data, expected);
    // Its plain description says the same.
    assert_eq!(sub.program.bytes, SPL_TOKEN_PROGRAM_ID_BYTES);
    assert_eq!(sub.accounts.len(), 2);
    assert_eq!(sub.accounts[0].address, mint);
    assert!(sub.accounts[0].is_writable);
    assert!(!sub.accounts[0].is_signer);
    assert_eq!(sub.accounts[1].address.bytes, RENT_SYSVAR_ID_BYTES);
    assert!(!sub.accounts[1].is_writable);
    assert!(!sub.accounts[1].is_signer);
    assert_eq!(sub.payload, expected);
}

#[test]
fn build_refuses_any_other_program_id() {
    let r = build_initialize_mint(
        &Address { bytes: [9u8; 32] },
        &Address { bytes: [2u8; 32] },
        &Address { bytes: [4u8; 32] },
        6,
    );
    assert_eq!(r.unwrap_err(), ProgramError::IncorrectProgramId);
}
