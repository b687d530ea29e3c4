//! What a new vault is.

use crate::contexts::{InitializeVault, SHARE_DECIMALS};
use crate::laws::ledger::Ledger;
use crate::pubkey::Pubkey;
use crate::state::VaultState;
use vstd::prelude::*;

verus! {

/// A new vault is empty, whatever its mint and its bump. It is run by the admin who
/// opened it, for the mint and with the accounts that the opening names.
pub proof fn law_new_vaults_are_empty(accounts: InitializeVault, bump: u8)
    ensures
        accounts.opened(bump).total_tokens == 0,
        accounts.opened(bump).total_shares == 0,
        accounts.opened(bump).admin == accounts.admin.key,
        accounts.opened(bump).token_mint == accounts.token_mint,
        accounts.opened(bump).vault_token_account == accounts.vault_token_account.key,
        accounts.opened(bump).share_mint == accounts.share_mint.key,
        accounts.opened(bump).bump == bump,
{
}

/// The books of a new vault agree with an account that holds no token yet and a mint
/// that has issued no share yet, and with no others.
pub proof fn law_new_books_agree(accounts: InitializeVault, bump: u8, ledger: Ledger)
    ensures
        ledger.agrees_with(
            accounts.opened(bump),
            accounts.vault_token_account.key,
            accounts.share_mint.key,
        ) <==> (ledger.balance)(accounts.vault_token_account.key) == 0 && (ledger.supply)(
            accounts.share_mint.key,
        ) == 0,
{
}

/// The accounts of a new vault: one of its token that it owns, and a mint of shares
/// with six decimals that it issues and nobody can freeze, at the addresses that the
/// opening names, paid for by the admin.
pub proof fn law_new_accounts_belong_to_the_vault(accounts: InitializeVault)
    ensures
        accounts.made().payer == accounts.admin.key,
        accounts.made().vault_space == VaultState::LEN,
        accounts.made().vault_token_account.key == accounts.vault_token_account.key,
        accounts.made().vault_token_account.is_writable,
        accounts.made().vault_token_account.mint == accounts.token_mint,
        accounts.made().vault_token_account.owner == accounts.vault_state.key,
        accounts.made().share_mint.key == accounts.share_mint.key,
        accounts.made().share_mint.is_writable,
        accounts.made().share_mint.mint_authority == Some(accounts.vault_state.key),
        accounts.made().share_decimals == 6,
        accounts.made().share_freeze_authority is None,
        SHARE_DECIMALS == 6,
        VaultState::LEN == 8 + 4 * 32 + 2 * 8 + 1,
{
}

/// An opening goes through wherever nothing is refused and the three addresses are
/// free and different from one another.
pub proof fn law_openings_go_through(
    program: Pubkey,
    accounts: InitializeVault,
    in_use: Set<Pubkey>,
)
    ensures
        accounts.goes_through(program, in_use) <==> {
            &&& accounts.verdict(accounts.derived(program)) is Ok
            &&& !in_use.contains(accounts.vault_state.key)
            &&& !in_use.contains(accounts.vault_token_account.key)
            &&& !in_use.contains(accounts.share_mint.key)
            &&& accounts.vault_state.key != accounts.vault_token_account.key
            &&& accounts.vault_state.key != accounts.share_mint.key
            &&& accounts.vault_token_account.key != accounts.share_mint.key
        },
{
}

} // verus!
