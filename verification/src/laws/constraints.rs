//! What the accounts of an instruction have to be, and the first fault that is
//! reported where they are not.

use crate::accounts::first_refusal_from;
use crate::contexts::{derived_for, Deposit, Derived, DerivedBytes, InitializeVault, Withdraw};
use crate::error::{Error, Role, VaultError};
use crate::instructions::{CloseRaydiumPosition, OpenRaydiumPosition};
use crate::pda::{
    created_address, found_address, SHARE_MINT_SEED, VAULT_SEED, VAULT_TOKENS_SEED,
};
use crate::pubkey::Pubkey;
use crate::state::VaultState;
use vstd::prelude::*;

verus! {

/// A vault is opened at three addresses that were found for it, each writable and
/// none of them the admin's, by an admin who can be charged.
pub proof fn law_accounts_of_an_opening(
    accounts: InitializeVault,
    derived: DerivedBytes,
)
    ensures
        accounts.verdict(derived) == (if derived.vault_state is None {
            Err::<(), Error>(Error::NoViableBump(Role::VaultState))
        } else if derived.vault_state != Some(accounts.vault_state.key@) {
            Err(Error::ConstraintSeeds(Role::VaultState))
        } else if accounts.admin.key == accounts.vault_state.key {
            Err(Error::TryingToInitPayerAsProgramAccount)
        } else if !accounts.vault_state.is_writable {
            Err(Error::ConstraintMut(Role::VaultState))
        } else if derived.vault_token_account is None {
            Err(Error::NoViableBump(Role::VaultTokenAccount))
        } else if derived.vault_token_account != Some(accounts.vault_token_account.key@) {
            Err(Error::ConstraintSeeds(Role::VaultTokenAccount))
        } else if accounts.admin.key == accounts.vault_token_account.key {
            Err(Error::TryingToInitPayerAsProgramAccount)
        } else if !accounts.vault_token_account.is_writable {
            Err(Error::ConstraintMut(Role::VaultTokenAccount))
        } else if derived.share_mint is None {
            Err(Error::NoViableBump(Role::ShareMint))
        } else if derived.share_mint != Some(accounts.share_mint.key@) {
            Err(Error::ConstraintSeeds(Role::ShareMint))
        } else if accounts.admin.key == accounts.share_mint.key {
            Err(Error::TryingToInitPayerAsProgramAccount)
        } else if !accounts.share_mint.is_writable {
            Err(Error::ConstraintMut(Role::ShareMint))
        } else if !accounts.admin.is_writable {
            Err(Error::ConstraintMut(Role::Admin))
        } else {
            Ok(())
        }),
{
    reveal_with_fuel(first_refusal_from, 11);
}

/// A deposit goes from an account of the user in the vault's token to the vault's
/// own account, for shares of the vault's own mint in an account of the user.
pub proof fn law_accounts_of_a_deposit(
    accounts: Deposit,
    derived: DerivedBytes,
)
    ensures
        accounts.verdict(derived) == (if derived.vault_state != Some(accounts.vault_state.key@) {
            Err::<(), Error>(Error::ConstraintSeeds(Role::VaultState))
        } else if !accounts.vault_state.is_writable {
            Err(Error::ConstraintMut(Role::VaultState))
        } else if derived.vault_token_account is None {
            Err(Error::NoViableBump(Role::VaultTokenAccount))
        } else if derived.vault_token_account != Some(accounts.vault_token_account.key@) {
            Err(Error::ConstraintSeeds(Role::VaultTokenAccount))
        } else if !accounts.vault_token_account.is_writable {
            Err(Error::ConstraintMut(Role::VaultTokenAccount))
        } else if accounts.vault_token_account.owner != accounts.vault_state.key {
            Err(Error::ConstraintTokenOwner)
        } else if accounts.vault_token_account.mint != accounts.vault_state.state.token_mint {
            Err(Error::ConstraintTokenMint)
        } else if derived.share_mint is None {
            Err(Error::NoViableBump(Role::ShareMint))
        } else if derived.share_mint != Some(accounts.share_mint.key@) {
            Err(Error::ConstraintSeeds(Role::ShareMint))
        } else if !accounts.share_mint.is_writable {
            Err(Error::ConstraintMut(Role::ShareMint))
        } else if accounts.share_mint.mint_authority != Some(accounts.vault_state.key) {
            Err(Error::ConstraintMintMintAuthority)
        } else if !accounts.user_token_account.is_writable {
            Err(Error::ConstraintMut(Role::UserTokenAccount))
        } else if accounts.user_token_account.owner != accounts.user.key {
            Err(Error::ConstraintTokenOwner)
        } else if accounts.user_token_account.mint != accounts.vault_state.state.token_mint {
            Err(Error::ConstraintTokenMint)
        } else if !accounts.user_share_account.is_writable {
            Err(Error::ConstraintMut(Role::UserShareAccount))
        } else if accounts.user_share_account.owner != accounts.user.key {
            Err(Error::ConstraintTokenOwner)
        } else if accounts.user_share_account.mint != accounts.share_mint.key {
            Err(Error::ConstraintTokenMint)
        } else if !accounts.user.is_writable {
            Err(Error::ConstraintMut(Role::User))
        } else {
            Ok(())
        }),
{
    reveal_with_fuel(first_refusal_from, 14);
}

/// A withdrawal goes from the vault's own account to an account of the user in the
/// vault's token, for shares of the vault's own mint in an account of the user.
pub proof fn law_accounts_of_a_withdrawal(
    accounts: Withdraw,
    derived: DerivedBytes,
)
    ensures
        accounts.verdict(derived) == (if derived.vault_state != Some(accounts.vault_state.key@) {
            Err::<(), Error>(Error::ConstraintSeeds(Role::VaultState))
        } else if !accounts.vault_state.is_writable {
            Err(Error::ConstraintMut(Role::VaultState))
        } else if derived.vault_token_account is None {
            Err(Error::NoViableBump(Role::VaultTokenAccount))
        } else if derived.vault_token_account != Some(accounts.vault_token_account.key@) {
            Err(Error::ConstraintSeeds(Role::VaultTokenAccount))
        } else if !accounts.vault_token_account.is_writable {
            Err(Error::ConstraintMut(Role::VaultTokenAccount))
        } else if accounts.vault_token_account.owner != accounts.vault_state.key {
            Err(Error::ConstraintTokenOwner)
        } else if accounts.vault_token_account.mint != accounts.vault_state.state.token_mint {
            Err(Error::ConstraintTokenMint)
        } else if derived.share_mint is None {
            Err(Error::NoViableBump(Role::ShareMint))
        } else if derived.share_mint != Some(accounts.share_mint.key@) {
            Err(Error::ConstraintSeeds(Role::ShareMint))
        } else if !accounts.share_mint.is_writable {
            Err(Error::ConstraintMut(Role::ShareMint))
        } else if accounts.share_mint.mint_authority != Some(accounts.vault_state.key) {
            Err(Error::ConstraintMintMintAuthority)
        } else if !accounts.user_token_account.is_writable {
            Err(Error::ConstraintMut(Role::UserTokenAccount))
        } else if accounts.user_token_account.owner != accounts.user.key {
            Err(Error::ConstraintTokenOwner)
        } else if accounts.user_token_account.mint != accounts.vault_state.state.token_mint {
            Err(Error::ConstraintTokenMint)
        } else if !accounts.user_share_account.is_writable {
            Err(Error::ConstraintMut(Role::UserShareAccount))
        } else if accounts.user_share_account.owner != accounts.user.key {
            Err(Error::ConstraintTokenOwner)
        } else if accounts.user_share_account.mint != accounts.share_mint.key {
            Err(Error::ConstraintTokenMint)
        } else if !accounts.user.is_writable {
            Err(Error::ConstraintMut(Role::User))
        } else {
            Ok(())
        }),
{
    reveal_with_fuel(first_refusal_from, 14);
}

/// A position is opened by the vault's admin, with the vault's account in its own
/// token and one of its accounts in wSOL, through the Raydium program.
pub proof fn law_accounts_of_an_opened_position(
    accounts: OpenRaydiumPosition,
    vault: Option<Seq<u8>>,
    vault_tokens: Option<Seq<u8>>,
    clmm: Pubkey,
)
    ensures
        accounts.verdict(vault, vault_tokens, clmm) == (if !accounts.admin.is_writable {
            Err::<(), Error>(Error::ConstraintMut(Role::Admin))
        } else if vault != Some(accounts.vault_state.key@) {
            Err(Error::ConstraintSeeds(Role::VaultState))
        } else if !accounts.vault_state.is_writable {
            Err(Error::ConstraintMut(Role::VaultState))
        } else if accounts.vault_state.state.admin != accounts.admin.key {
            Err(Error::Vault(VaultError::Unauthorized))
        } else if vault_tokens is None {
            Err(Error::NoViableBump(Role::VaultTokenAccount))
        } else if vault_tokens != Some(accounts.vault_token_account.key@) {
            Err(Error::ConstraintSeeds(Role::VaultTokenAccount))
        } else if !accounts.vault_token_account.is_writable {
            Err(Error::ConstraintMut(Role::VaultTokenAccount))
        } else if accounts.vault_token_account.owner != accounts.vault_state.key {
            Err(Error::ConstraintTokenOwner)
        } else if accounts.vault_token_account.mint != accounts.vault_state.state.token_mint {
            Err(Error::ConstraintTokenMint)
        } else if !accounts.vault_wsol_account.is_writable {
            Err(Error::ConstraintMut(Role::VaultWsolAccount))
        } else if accounts.vault_wsol_account.owner != accounts.vault_state.key {
            Err(Error::ConstraintTokenOwner)
        } else if accounts.vault_wsol_account.mint != accounts.wsol_mint {
            Err(Error::ConstraintTokenMint)
        } else if !accounts.pool_state.is_writable {
            Err(Error::ConstraintMut(Role::PoolState))
        } else if !accounts.position_nft_mint.is_writable {
            Err(Error::ConstraintMut(Role::PositionNftMint))
        } else if !accounts.position_nft_account.is_writable {
            Err(Error::ConstraintMut(Role::PositionNftAccount))
        } else if !accounts.personal_position.is_writable {
            Err(Error::ConstraintMut(Role::PersonalPosition))
        } else if !accounts.tick_array_lower.is_writable {
            Err(Error::ConstraintMut(Role::TickArrayLower))
        } else if !accounts.tick_array_upper.is_writable {
            Err(Error::ConstraintMut(Role::TickArrayUpper))
        } else if !accounts.token_vault_0.is_writable {
            Err(Error::ConstraintMut(Role::TokenVault0))
        } else if !accounts.token_vault_1.is_writable {
            Err(Error::ConstraintMut(Role::TokenVault1))
        } else if accounts.clmm_program != clmm {
            Err(Error::ConstraintAddress(Role::ClmmProgram))
        } else {
            Ok(())
        }),
{
    reveal_with_fuel(first_refusal_from, 19);
}

/// A position is closed by the vault's admin, into the vault's account in its own
/// token and one of its accounts in wSOL, through the Raydium program. The vault
/// holds the position's NFT, and the position lies in the pool.
pub proof fn law_accounts_of_a_closed_position(
    accounts: CloseRaydiumPosition,
    vault: Option<Seq<u8>>,
    vault_tokens: Option<Seq<u8>>,
    clmm: Pubkey,
)
    ensures
        accounts.verdict(vault, vault_tokens, clmm) == (if !accounts.admin.is_writable {
            Err::<(), Error>(Error::ConstraintMut(Role::Admin))
        } else if vault != Some(accounts.vault_state.key@) {
            Err(Error::ConstraintSeeds(Role::VaultState))
        } else if !accounts.vault_state.is_writable {
            Err(Error::ConstraintMut(Role::VaultState))
        } else if accounts.vault_state.state.admin != accounts.admin.key {
            Err(Error::Vault(VaultError::Unauthorized))
        } else if vault_tokens is None {
            Err(Error::NoViableBump(Role::VaultTokenAccount))
        } else if vault_tokens != Some(accounts.vault_token_account.key@) {
            Err(Error::ConstraintSeeds(Role::VaultTokenAccount))
        } else if !accounts.vault_token_account.is_writable {
            Err(Error::ConstraintMut(Role::VaultTokenAccount))
        } else if accounts.vault_token_account.owner != accounts.vault_state.key {
            Err(Error::ConstraintTokenOwner)
        } else if accounts.vault_token_account.mint != accounts.vault_state.state.token_mint {
            Err(Error::ConstraintTokenMint)
        } else if !accounts.vault_wsol_account.is_writable {
            Err(Error::ConstraintMut(Role::VaultWsolAccount))
        } else if accounts.vault_wsol_account.owner != accounts.vault_state.key {
            Err(Error::ConstraintTokenOwner)
        } else if accounts.vault_wsol_account.mint != accounts.wsol_mint {
            Err(Error::ConstraintTokenMint)
        } else if !accounts.pool_state.is_writable {
            Err(Error::ConstraintMut(Role::PoolState))
        } else if !accounts.position_nft_mint.is_writable {
            Err(Error::ConstraintMut(Role::PositionNftMint))
        } else if !accounts.position_nft_account.is_writable {
            Err(Error::ConstraintMut(Role::PositionNftAccount))
        } else if accounts.position_nft_account.owner != accounts.vault_state.key {
            Err(Error::ConstraintTokenOwner)
        } else if accounts.position_nft_account.mint != accounts.position_nft_mint.key {
            Err(Error::ConstraintTokenMint)
        } else if !accounts.personal_position.is_writable {
            Err(Error::ConstraintMut(Role::PersonalPosition))
        } else if accounts.personal_position.pool_id != accounts.pool_state.key {
            Err(Error::ConstraintRaw(Role::PersonalPosition))
        } else if !accounts.token_vault_0.is_writable {
            Err(Error::ConstraintMut(Role::TokenVault0))
        } else if !accounts.token_vault_1.is_writable {
            Err(Error::ConstraintMut(Role::TokenVault1))
        } else if !accounts.tick_array_lower.is_writable {
            Err(Error::ConstraintMut(Role::TickArrayLower))
        } else if !accounts.tick_array_upper.is_writable {
            Err(Error::ConstraintMut(Role::TickArrayUpper))
        } else if accounts.clmm_program != clmm {
            Err(Error::ConstraintAddress(Role::ClmmProgram))
        } else {
            Ok(())
        }),
{
    reveal_with_fuel(first_refusal_from, 21);
}

/// The accounts of a vault are at addresses of their own, each under its own
/// prefix: the vault under the bump that it keeps, the others under the bump that
/// a search finds.
pub proof fn law_addresses_of_a_vault(vault: VaultState, key: Pubkey, program: Pubkey)
    ensures
        derived_for(vault, program).vault_state == created_address(
            VAULT_SEED@,
            vault.token_mint@,
            vault.bump,
            program@,
        ),
        derived_for(vault, program).vault_token_account == (match found_address(
            VAULT_TOKENS_SEED@,
            vault.token_mint@,
            program@,
        ) {
            Some((address, _)) => Some(address),
            None => None,
        }),
        derived_for(vault, program).share_mint == (match found_address(
            SHARE_MINT_SEED@,
            vault.token_mint@,
            program@,
        ) {
            Some((address, _)) => Some(address),
            None => None,
        }),
        vault.stored_at(key, program) <==> derived_for(vault, program).vault_state == Some(key@),
{
}

/// A new vault is looked for at the address that a search finds, and from then on
/// at the same address: an opening and a deposit look in the same three places.
pub proof fn law_addresses_of_a_new_vault(accounts: InitializeVault, bump: u8, program: Pubkey)
    ensures
        match found_address(VAULT_SEED@, accounts.token_mint@, program@) {
            Some((address, found)) => {
                &&& accounts.derived(program).vault_state == Some(address)
                &&& bump == found ==> accounts.derived(program) == derived_for(
                    accounts.opened(bump),
                    program,
                )
            },
            None => accounts.derived(program).vault_state is None,
        },
        accounts.derived(program).vault_token_account == derived_for(
            accounts.opened(bump),
            program,
        ).vault_token_account,
        accounts.derived(program).share_mint == derived_for(
            accounts.opened(bump),
            program,
        ).share_mint,
{
    crate::pda::law_found_bumps_are_highest(VAULT_SEED@, accounts.token_mint@, program@);
}

/// Addresses that have been derived are known by their bytes, each in its place.
pub proof fn law_derived_addresses_keep_their_places(derived: Derived)
    ensures
        derived.vault_state is Some <==> derived@.vault_state is Some,
        derived.vault_state matches Some(key) ==> derived@.vault_state == Some(key@),
        derived.vault_token_account is Some <==> derived@.vault_token_account is Some,
        derived.vault_token_account matches Some(key) ==> derived@.vault_token_account == Some(
            key@,
        ),
        derived.share_mint is Some <==> derived@.share_mint is Some,
        derived.share_mint matches Some(key) ==> derived@.share_mint == Some(key@),
{
}

} // verus!
