//! Who may do what with a vault, and with which accounts.

use crate::contexts::{derived_for, Deposit, InitializeVault, NewVault, Withdraw};
use crate::cpi::{Call, Cpi};
use crate::error::{Error, VaultError};
use crate::instructions::open_position::PositionTerms;
use crate::instructions::{CloseRaydiumPosition, OpenRaydiumPosition};
use crate::pda::{created_address, VAULT_SEED};
use crate::pubkey::{lemma_same_bytes, Pubkey};
use vstd::prelude::*;

verus! {

/// Nobody but the admin opens a position; whoever else comes with accounts that
/// are in order up to there is told that they are not authorised.
pub proof fn law_only_the_admin_opens(
    accounts: OpenRaydiumPosition,
    vault: Option<Seq<u8>>,
    vault_tokens: Option<Seq<u8>>,
    clmm: Pubkey,
)
    requires
        accounts.admin.key != accounts.vault_state.state.admin,
    ensures
        accounts.verdict(vault, vault_tokens, clmm) is Err,
        accounts.admin.is_writable && vault == Some(accounts.vault_state.key@)
            && accounts.vault_state.is_writable ==> accounts.verdict(vault, vault_tokens, clmm)
            == Err::<(), Error>(Error::Vault(VaultError::Unauthorized)),
{
    reveal_with_fuel(crate::accounts::first_refusal_from, 19);
}

/// Nobody but the admin closes a position; whoever else comes with accounts that
/// are in order up to there is told that they are not authorised.
pub proof fn law_only_the_admin_closes(
    accounts: CloseRaydiumPosition,
    vault: Option<Seq<u8>>,
    vault_tokens: Option<Seq<u8>>,
    clmm: Pubkey,
)
    requires
        accounts.admin.key != accounts.vault_state.state.admin,
    ensures
        accounts.verdict(vault, vault_tokens, clmm) is Err,
        accounts.admin.is_writable && vault == Some(accounts.vault_state.key@)
            && accounts.vault_state.is_writable ==> accounts.verdict(vault, vault_tokens, clmm)
            == Err::<(), Error>(Error::Vault(VaultError::Unauthorized)),
{
    reveal_with_fuel(crate::accounts::first_refusal_from, 21);
}

/// A mint has one vault: whoever opens one for it has to name the same three
/// accounts as anybody else.
pub proof fn law_one_vault_per_mint(program: Pubkey, a: InitializeVault, b: InitializeVault)
    requires
        a.token_mint == b.token_mint,
        a.verdict(a.derived(program)) is Ok,
        b.verdict(b.derived(program)) is Ok,
    ensures
        a.vault_state.key == b.vault_state.key,
        a.vault_token_account.key == b.vault_token_account.key,
        a.share_mint.key == b.share_mint.key,
{
    reveal_with_fuel(crate::accounts::first_refusal_from, 11);
    lemma_same_bytes(a.vault_state.key, b.vault_state.key);
    lemma_same_bytes(a.vault_token_account.key, b.vault_token_account.key);
    lemma_same_bytes(a.share_mint.key, b.share_mint.key);
}

/// The admin of a new vault pays for its accounts, but the vault owns the account
/// that holds the tokens and issues the shares, nobody can freeze the shares, and
/// the admin is neither the vault nor one of its accounts.
pub proof fn law_the_admin_only_pays(program: Pubkey, accounts: InitializeVault)
    requires
        accounts.verdict(accounts.derived(program)) is Ok,
    ensures
        accounts.made().payer == accounts.admin.key,
        accounts.made().vault_token_account.owner == accounts.vault_state.key,
        accounts.made().vault_token_account.owner != accounts.admin.key,
        accounts.made().share_mint.mint_authority == Some(accounts.vault_state.key),
        accounts.made().share_mint.mint_authority != Some(accounts.admin.key),
        accounts.made().share_freeze_authority is None,
        accounts.admin.key != accounts.vault_state.key,
        accounts.admin.key != accounts.vault_token_account.key,
        accounts.admin.key != accounts.share_mint.key,
{
    reveal_with_fuel(crate::accounts::first_refusal_from, 11);
}

/// Whoever opens a vault can have deposits made to it at once: the accounts that
/// come into being, in the hands they are made for, meet every constraint of a
/// deposit.
pub proof fn law_new_vaults_take_deposits(
    program: Pubkey,
    opening: InitializeVault,
    new: NewVault,
    accounts: Deposit,
)
    requires
        // The vault has been opened.
        opening.verdict(opening.derived(program)) is Ok,
        new.state == opening.opened(new.state.bump),
        new.made == opening.made(),
        new.state.stored_at(opening.vault_state.key, program),
        // The deposit names the accounts that were made.
        accounts.vault_state.key == opening.vault_state.key,
        accounts.vault_state.is_writable,
        accounts.vault_state.state == new.state,
        accounts.vault_token_account == new.made.vault_token_account,
        accounts.share_mint == new.made.share_mint,
        // The user brings accounts of their own.
        accounts.user_token_account.owner == accounts.user.key,
        accounts.user_token_account.mint == opening.token_mint,
        accounts.user_share_account.owner == accounts.user.key,
        accounts.user_share_account.mint == opening.share_mint.key,
        accounts.user_token_account.is_writable,
        accounts.user_share_account.is_writable,
        accounts.user.is_writable,
    ensures
        accounts.verdict(derived_for(new.state, program)) is Ok,
{
    reveal_with_fuel(crate::accounts::first_refusal_from, 14);
}

/// Whoever may deposit may also withdraw, with the same accounts and whatever
/// the totals have become by then.
pub proof fn law_depositors_can_withdraw(
    program: Pubkey,
    deposit: Deposit,
    withdrawal: Withdraw,
    total_tokens: u64,
    total_shares: u64,
)
    requires
        withdrawal.vault_state.key == deposit.vault_state.key,
        withdrawal.vault_state.is_writable == deposit.vault_state.is_writable,
        withdrawal.vault_state.state == deposit.vault_state.state.with_totals(
            total_tokens,
            total_shares,
        ),
        withdrawal.vault_token_account == deposit.vault_token_account,
        withdrawal.share_mint == deposit.share_mint,
        withdrawal.user_token_account == deposit.user_token_account,
        withdrawal.user_share_account == deposit.user_share_account,
        withdrawal.user == deposit.user,
    ensures
        withdrawal.verdict(derived_for(withdrawal.vault_state.state, program)) == deposit.verdict(
            derived_for(deposit.vault_state.state, program),
        ),
{
    reveal_with_fuel(crate::accounts::first_refusal_from, 14);
}

/// The seeds with which the program signs a call lead to `key`.
pub open spec fn signs_for(cpi: Cpi, key: Pubkey, program: Pubkey) -> bool {
    cpi.signer matches Some(signer) && created_address(
        VAULT_SEED@,
        signer.token_mint@,
        signer.bump,
        program@,
    ) == Some(key@)
}

/// A deposit that is let through issues shares under the vault's own signature,
/// and takes the tokens under the user's.
pub proof fn law_deposits_are_signed(
    program: Pubkey,
    accounts: Deposit,
    amount: u64,
    shares: u64,
)
    requires
        accounts.verdict(derived_for(accounts.vault_state.state, program)) is Ok,
    ensures
        ({
            let calls = accounts.calls(amount, shares);
            &&& calls[0].signer is None
            &&& calls[0].call->Transfer_0.authority == accounts.user.key
            &&& accounts.user_token_account.owner == accounts.user.key
            &&& signs_for(calls[1], accounts.vault_state.key, program)
            &&& accounts.share_mint.mint_authority == Some(calls[1].call->MintTo_0.authority)
        }),
{
    reveal_with_fuel(crate::accounts::first_refusal_from, 14);
}

/// A withdrawal that is let through pays under the vault's own signature, and
/// burns the shares under the user's.
pub proof fn law_withdrawals_are_signed(
    program: Pubkey,
    accounts: Withdraw,
    shares: u64,
    tokens: u64,
)
    requires
        accounts.verdict(derived_for(accounts.vault_state.state, program)) is Ok,
    ensures
        ({
            let calls = accounts.calls(shares, tokens);
            &&& calls[0].signer is None
            &&& calls[0].call->Burn_0.authority == accounts.user.key
            &&& accounts.user_share_account.owner == accounts.user.key
            &&& signs_for(calls[1], accounts.vault_state.key, program)
            &&& accounts.vault_token_account.owner == calls[1].call->Transfer_0.authority
        }),
{
    reveal_with_fuel(crate::accounts::first_refusal_from, 14);
}

/// Every call of an opening that is let through is signed by the vault.
pub proof fn law_openings_are_signed(
    program: Pubkey,
    clmm: Pubkey,
    accounts: OpenRaydiumPosition,
    terms: PositionTerms,
    i: int,
)
    requires
        ({
            let derived = derived_for(accounts.vault_state.state, program);
            accounts.verdict(derived.vault_state, derived.vault_token_account, clmm) is Ok
        }),
        0 <= i < accounts.calls(terms).len(),
    ensures
        signs_for(accounts.calls(terms)[i], accounts.vault_state.key, program),
{
    reveal_with_fuel(crate::accounts::first_refusal_from, 19);
}

/// Every call of a closing that is let through is signed by the vault.
pub proof fn law_closings_are_signed(
    program: Pubkey,
    clmm: Pubkey,
    accounts: CloseRaydiumPosition,
    amount_0_min: u64,
    amount_1_min: u64,
    i: int,
)
    requires
        ({
            let derived = derived_for(accounts.vault_state.state, program);
            accounts.verdict(derived.vault_state, derived.vault_token_account, clmm) is Ok
        }),
        0 <= i < accounts.calls(amount_0_min, amount_1_min).len(),
    ensures
        signs_for(
            accounts.calls(amount_0_min, amount_1_min)[i],
            accounts.vault_state.key,
            program,
        ),
{
    reveal_with_fuel(crate::accounts::first_refusal_from, 21);
}

/// While a position is opened only the admin may spend from the vault's
/// accounts, no more than the terms allow, and each such right is taken back
/// by a later call.
pub proof fn law_spending_rights_end(accounts: OpenRaydiumPosition, terms: PositionTerms, i: int)
    requires
        0 <= i < accounts.calls(terms).len(),
    ensures
        accounts.calls(terms)[i].call matches Call::Approve(right) ==> {
            &&& right.delegate == accounts.admin.key
            &&& {
                ||| right.to == accounts.vault_token_account.key && right.amount
                    == accounts.vault_token_max(terms)
                ||| right.to == accounts.vault_wsol_account.key && right.amount
                    == accounts.wsol_max(terms)
            }
            &&& exists|j: int|
                i < j < accounts.calls(terms).len()
                    && (#[trigger] accounts.calls(terms)[j].call matches Call::Revoke(end)
                    && end.source == right.to)
        },
{
    if i == 0 {
        assert(accounts.calls(terms)[3].call->Revoke_0.source == accounts.vault_token_account.key);
    }
    if i == 1 {
        assert(accounts.calls(terms)[4].call->Revoke_0.source == accounts.vault_wsol_account.key);
    }
}

/// The tokens that go into a position come from accounts of the vault, each on
/// the side of the pool that bears its limit.
pub proof fn law_sides_match(accounts: OpenRaydiumPosition, terms: PositionTerms)
    ensures
        accounts.calls(terms)[2].call matches Call::OpenPositionWithToken22Nft(open) && {
            ||| {
                &&& open.token_account_0 == accounts.vault_token_account.key
                &&& open.token_account_1 == accounts.vault_wsol_account.key
                &&& open.amount_0_max == accounts.vault_token_max(terms)
                &&& open.amount_1_max == accounts.wsol_max(terms)
            }
            ||| {
                &&& open.token_account_0 == accounts.vault_wsol_account.key
                &&& open.token_account_1 == accounts.vault_token_account.key
                &&& open.amount_0_max == accounts.wsol_max(terms)
                &&& open.amount_1_max == accounts.vault_token_max(terms)
            }
        },
{
}

/// What comes out of a position that is closed goes to accounts of the vault,
/// one for each token, and all of the liquidity comes out.
pub proof fn law_liquidity_comes_home(
    accounts: CloseRaydiumPosition,
    vault: Option<Seq<u8>>,
    vault_tokens: Option<Seq<u8>>,
    clmm: Pubkey,
    amount_0_min: u64,
    amount_1_min: u64,
    i: int,
)
    requires
        accounts.verdict(vault, vault_tokens, clmm) is Ok,
        0 <= i < accounts.calls(amount_0_min, amount_1_min).len(),
    ensures
        accounts.calls(amount_0_min, amount_1_min)[i].call matches Call::DecreaseLiquidityV2(out)
            ==> {
            &&& out.liquidity == accounts.personal_position.liquidity
            &&& accounts.vault_token_account.owner == accounts.vault_state.key
            &&& accounts.vault_wsol_account.owner == accounts.vault_state.key
            &&& {
                ||| out.recipient_token_account_0 == accounts.vault_token_account.key
                    && out.recipient_token_account_1 == accounts.vault_wsol_account.key
                ||| out.recipient_token_account_0 == accounts.vault_wsol_account.key
                    && out.recipient_token_account_1 == accounts.vault_token_account.key
            }
        },
{
    reveal_with_fuel(crate::accounts::first_refusal_from, 21);
}

} // verus!
