//! The sub-instruction this program constructs, described as plain values.
//!
//! The host's instruction type keeps its addresses in an opaque key type,
//! so nothing can be stated about them directly. The trusted builder
//! therefore returns, beside the real instruction, a description of it
//! over plain bytes — the delegated call's target, its account
//! descriptors, and its payload — and the contracts speak about that
//! description. The two program addresses the description mentions are
//! fixed constants of the chain, declared here.

use crate::address::Address;
use crate::{AUTHORITY_NONE_TAG, INITIALIZE_MINT_TAG};
use vstd::prelude::*;

verus! {

/// The token program's own address, as the token crate declares it
/// (base58 `TokenkegQfeZyiNwAJbNbGKPFXCWuBvf9Ss623VQ5DA`).
pub const SPL_TOKEN_PROGRAM_ID_BYTES: [u8; 32] = [
    6, 221, 246, 225, 215, 101, 161, 147, 217, 203, 225, 70, 206, 235, 121, 172, 28, 180, 133,
    237, 95, 91, 55, 145, 58, 140, 245, 133, 126, 255, 0, 169,
];

/// The rent sysvar's address, as the host declares it
/// (base58 `SysvarRent111111111111111111111111111111111`).
pub const RENT_SYSVAR_ID_BYTES: [u8; 32] = [
    6, 167, 213, 23, 25, 44, 92, 81, 33, 140, 201, 76, 61, 74, 241, 127, 88, 218, 238, 8, 155,
    161, 253, 68, 227, 219, 217, 138, 0, 0, 0, 0,
];

/// The token program's address as a byte sequence.
pub open spec fn spl_token_program_id() -> Seq<u8> {
    SPL_TOKEN_PROGRAM_ID_BYTES@
}

/// The rent sysvar's address as a byte sequence.
pub open spec fn rent_sysvar_id() -> Seq<u8> {
    RENT_SYSVAR_ID_BYTES@
}

/// One account named by a sub-instruction: its address, whether it must
/// sign, and whether it may be written.
#[derive(Clone, Copy, Debug, PartialEq, Eq)]
pub struct AccountDescriptor {
    pub address: Address,
    pub is_signer: bool,
    pub is_writable: bool,
}

/// A sub-instruction as plain values: the program it is addressed to, the
/// accounts it names in order, and its opaque payload.
#[derive(Clone, Debug, PartialEq, Eq)]
pub struct SubInstruction {
    pub program: Address,
    pub accounts: Vec<AccountDescriptor>,
    pub payload: Vec<u8>,
}

/// The instruction data of an initialize-mint request: the operation tag,
/// the decimal count, the 32 mint-authority bytes, and the tag for an
/// absent freeze authority.
pub open spec fn initialize_mint_payload(authority: Seq<u8>, decimals: u8) -> Seq<u8> {
    seq![INITIALIZE_MINT_TAG, decimals] + authority + seq![AUTHORITY_NONE_TAG]
}

/// True when `sub` is the initialize-mint sub-instruction for the given
/// token program, mint, authority and decimal count: addressed to the
/// token program, naming the mint as its only writable non-signer account
/// followed by the read-only non-signer rent sysvar, with the payload of
/// `initialize_mint_payload`.
pub open spec fn describes_initialize_mint(
    sub: SubInstruction,
    token_program: Seq<u8>,
    mint: Seq<u8>,
    authority: Seq<u8>,
    decimals: u8,
) -> bool {
    &&& sub.program@ == token_program
    &&& sub.accounts@.len() == 2
    &&& sub.accounts@[0].address@ == mint
    &&& !sub.accounts@[0].is_signer
    &&& sub.accounts@[0].is_writable
    &&& sub.accounts@[1].address@ == rent_sysvar_id()
    &&& !sub.accounts@[1].is_signer
    &&& !sub.accounts@[1].is_writable
    &&& sub.payload@ == initialize_mint_payload(authority, decimals)
}

} // verus!
