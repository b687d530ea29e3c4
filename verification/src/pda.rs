//! The addresses that the program derives for a vault.
//!
//! Every such address comes from two seeds, a fixed prefix and the mint of the
//! vault's token, and from a bump that keeps it off the signing curve.

use crate::pubkey::Pubkey;
use vstd::prelude::*;

verus! {

/// The prefix of the vault's own address: `vault`.
pub const VAULT_SEED: [u8; 5] = [118, 97, 117, 108, 116];

/// The prefix of the address that holds the tokens: `vault_tokens`.
pub const VAULT_TOKENS_SEED: [u8; 12] = [118, 97, 117, 108, 116, 95, 116, 111, 107, 101, 110, 115];

/// The prefix of the address of the share mint: `share_mint`.
pub const SHARE_MINT_SEED: [u8; 10] = [115, 104, 97, 114, 101, 95, 109, 105, 110, 116];

/// Why an address cannot be derived.
#[verifier::external_type_specification]
#[verifier::external_body]
pub struct ExPubkeyError(anchor_lang::solana_program::pubkey::PubkeyError);

/// The address that `Pubkey::create_program_address` derives from the seeds
/// `prefix`, `mint` and `[bump]` for `program`; `None` where it derives none.
pub uninterp spec fn created_address(
    prefix: Seq<u8>,
    mint: Seq<u8>,
    bump: u8,
    program: Seq<u8>,
) -> Option<Seq<u8>>;

/// The address for the highest bump from `bump` down to one that derives any,
/// and that bump; `None` where none of them does.
pub open spec fn found_below(
    prefix: Seq<u8>,
    mint: Seq<u8>,
    bump: u8,
    program: Seq<u8>,
) -> Option<(Seq<u8>, u8)>
    decreases bump,
{
    if bump == 0 {
        None
    } else {
        match created_address(prefix, mint, bump, program) {
            Some(address) => Some((address, bump)),
            None => found_below(prefix, mint, (bump - 1) as u8, program),
        }
    }
}

/// The address for the highest bump that derives any, and that bump; `None`
/// where no bump above zero derives one.
pub open spec fn found_address(prefix: Seq<u8>, mint: Seq<u8>, program: Seq<u8>) -> Option<
    (Seq<u8>, u8),
> {
    found_below(prefix, mint, u8::MAX, program)
}

/// No higher bump derives an address from the same seeds.
pub open spec fn highest(prefix: Seq<u8>, mint: Seq<u8>, bump: u8, program: Seq<u8>) -> bool {
    forall|higher: u8|
        bump < higher ==> (#[trigger] created_address(prefix, mint, higher, program)) is None
}

/// Calls `Pubkey::create_program_address` of the Solana SDK, as Anchor hands it
/// on, with the seeds `prefix`, `mint` and `[bump]`. The contract claims no more
/// than that the outcome is a function of these bytes; which error comes back
/// is left open.
#[verifier::external_body]
fn create_program_address(
    prefix: &[u8],
    mint: &Pubkey,
    bump: u8,
    program: &Pubkey,
) -> (address: Result<Pubkey, anchor_lang::solana_program::pubkey::PubkeyError>)
    ensures
        match address {
            Ok(key) => created_address(prefix@, mint@, bump, program@) == Some(key@),
            Err(_) => created_address(prefix@, mint@, bump, program@) is None,
        },
{
    anchor_lang::prelude::Pubkey::create_program_address(
        &[prefix, &mint.bytes, &[bump]],
        &anchor_lang::prelude::Pubkey::new_from_array(program.bytes),
    )
    .map(|key| Pubkey { bytes: key.to_bytes() })
}

/// Calls `Pubkey::try_find_program_address` of the Solana SDK, as Anchor hands
/// it on, with the seeds `prefix` and `mint`. The contract claims that it tries
/// the bumps from 255 down to 1 and hands back the first one for which
/// `create_program_address` derives an address, with that address, and `None`
/// where there is no such bump.
#[verifier::external_body]
fn try_find_program_address(
    prefix: &[u8],
    mint: &Pubkey,
    program: &Pubkey,
) -> (found: Option<(Pubkey, u8)>)
    ensures
        match found {
            Some((key, bump)) => found_address(prefix@, mint@, program@) == Some((key@, bump)),
            None => found_address(prefix@, mint@, program@) is None,
        },
{
    anchor_lang::prelude::Pubkey::try_find_program_address(
        &[prefix, &mint.bytes],
        &anchor_lang::prelude::Pubkey::new_from_array(program.bytes),
    )
    .map(|(key, bump)| (Pubkey { bytes: key.to_bytes() }, bump))
}

/// What a search from `bump` down finds: a bump that is at least one and derives
/// the address, with none that does between it and `bump`; or that none does.
proof fn lemma_found_below(prefix: Seq<u8>, mint: Seq<u8>, bump: u8, program: Seq<u8>)
    ensures
        match found_below(prefix, mint, bump, program) {
            Some((address, found)) => {
                &&& 1 <= found <= bump
                &&& created_address(prefix, mint, found, program) == Some(address)
                &&& forall|tried: u8|
                    found < tried <= bump ==> (#[trigger] created_address(
                        prefix,
                        mint,
                        tried,
                        program,
                    )) is None
            },
            None => forall|tried: u8|
                1 <= tried <= bump ==> (#[trigger] created_address(prefix, mint, tried, program))
                    is None,
        },
    decreases bump,
{
    if bump > 0 && created_address(prefix, mint, bump, program) is None {
        lemma_found_below(prefix, mint, (bump - 1) as u8, program);
    }
}

/// An address that is found belongs to the highest bump that derives any, which
/// is at least one; where none is found, no bump above zero derives any.
pub proof fn law_found_bumps_are_highest(prefix: Seq<u8>, mint: Seq<u8>, program: Seq<u8>)
    ensures
        match found_address(prefix, mint, program) {
            Some((address, bump)) => {
                &&& bump >= 1
                &&& created_address(prefix, mint, bump, program) == Some(address)
                &&& highest(prefix, mint, bump, program)
            },
            None => highest(prefix, mint, 0, program),
        },
{
    lemma_found_below(prefix, mint, u8::MAX, program);
}

/// The bytes of an address, where there is one.
pub open spec fn bytes_of(key: Option<Pubkey>) -> Option<Seq<u8>> {
    match key {
        Some(key) => Some(key@),
        None => None,
    }
}

/// The address in what a search found, where it found one.
pub open spec fn address_in(found: Option<(Seq<u8>, u8)>) -> Option<Seq<u8>> {
    match found {
        Some((address, _)) => Some(address),
        None => None,
    }
}

/// The address of the vault of `token_mint` under a bump that is already known.
pub fn vault_address(token_mint: &Pubkey, bump: u8, program: &Pubkey) -> (address: Option<Pubkey>)
    ensures
        bytes_of(address) == created_address(VAULT_SEED@, token_mint@, bump, program@),
{
    match create_program_address(&VAULT_SEED, token_mint, bump, program) {
        Ok(key) => Some(key),
        Err(_) => None,
    }
}

/// The address of a new vault of `token_mint`, and the bump that leads to it.
pub fn find_vault(token_mint: &Pubkey, program: &Pubkey) -> (found: Option<(Pubkey, u8)>)
    ensures
        match found {
            Some((key, bump)) => {
                &&& found_address(VAULT_SEED@, token_mint@, program@) == Some((key@, bump))
                &&& created_address(VAULT_SEED@, token_mint@, bump, program@) == Some(key@)
                &&& highest(VAULT_SEED@, token_mint@, bump, program@)
                &&& bump >= 1
            },
            None => {
                &&& found_address(VAULT_SEED@, token_mint@, program@) is None
                &&& highest(VAULT_SEED@, token_mint@, 0, program@)
            },
        },
{
    proof {
        law_found_bumps_are_highest(VAULT_SEED@, token_mint@, program@);
    }
    try_find_program_address(&VAULT_SEED, token_mint, program)
}

/// The address of the account that holds the tokens of the vault of `token_mint`.
pub fn find_vault_tokens(token_mint: &Pubkey, program: &Pubkey) -> (address: Option<Pubkey>)
    ensures
        bytes_of(address) == address_in(
            found_address(VAULT_TOKENS_SEED@, token_mint@, program@),
        ),
{
    match try_find_program_address(&VAULT_TOKENS_SEED, token_mint, program) {
        Some((key, _)) => Some(key),
        None => None,
    }
}

/// The address of the mint of the shares in the vault of `token_mint`.
pub fn find_share_mint(token_mint: &Pubkey, program: &Pubkey) -> (address: Option<Pubkey>)
    ensures
        bytes_of(address) == address_in(found_address(SHARE_MINT_SEED@, token_mint@, program@)),
{
    match try_find_program_address(&SHARE_MINT_SEED, token_mint, program) {
        Some((key, _)) => Some(key),
        None => None,
    }
}

} // verus!
