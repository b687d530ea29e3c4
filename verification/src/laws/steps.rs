//! The parts that every instruction is made of.

use crate::cpi::{Action, Event, Run, Settlement};
use crate::error::{Role, VaultError};
use crate::state::VaultState;
use vstd::prelude::*;

verus! {

/// A step hands out the next call, and only where no call has failed; after the
/// last call it ends with the books. Nothing else about the instruction changes.
pub proof fn law_steps_follow_the_calls(before: Run, event: Event, after: Run, action: Action)
    requires
        Run::stepped(before, event, after, action),
    ensures
        after.vault() == before.vault(),
        after.calls() == before.calls(),
        after.settlement() == before.settlement(),
        before.failed() || event == Event::CallFailed <==> after.failed(),
        after.failed() <==> action is Abort,
        !after.failed() && before.done() < before.calls().len() ==> {
            &&& action == Action::Invoke(before.calls()[before.done() as int])
            &&& after.done() == before.done() + 1
        },
        !after.failed() && before.done() >= before.calls().len() ==> {
            &&& action is Commit || action is Refuse
            &&& after.done() == before.done()
        },
        after.failed() ==> after.done() == before.done(),
        action matches Action::Commit(stored) ==> {
            &&& stored.admin == before.vault().admin
            &&& stored.token_mint == before.vault().token_mint
            &&& stored.vault_token_account == before.vault().vault_token_account
            &&& stored.share_mint == before.vault().share_mint
            &&& stored.bump == before.vault().bump
        },
{
}

/// Books that have been settled differ by exactly what was settled, and a
/// settlement is refused only where a counter cannot hold the result.
pub proof fn law_settlements_are_exact(vault: VaultState, settlement: Settlement)
    ensures
        match settlement {
            Settlement::Credit { tokens, shares } => match vault.settled(settlement) {
                Ok(next) => {
                    &&& next.total_tokens - vault.total_tokens == tokens
                    &&& next.total_shares - vault.total_shares == shares
                },
                Err(error) => {
                    &&& error == VaultError::MathOverflow
                    &&& vault.total_tokens + tokens > u64::MAX || vault.total_shares + shares
                        > u64::MAX
                },
            },
            Settlement::Debit { tokens, shares } => match vault.settled(settlement) {
                Ok(next) => {
                    &&& vault.total_tokens - next.total_tokens == tokens
                    &&& vault.total_shares - next.total_shares == shares
                },
                Err(error) => {
                    &&& error == VaultError::MathOverflow
                    &&& vault.total_tokens < tokens || vault.total_shares < shares
                },
            },
            Settlement::Unchanged => vault.settled(settlement) == Ok::<VaultState, VaultError>(vault),
        },
        vault.settled(settlement) matches Ok(next) ==> {
            &&& next.admin == vault.admin
            &&& next.token_mint == vault.token_mint
            &&& next.vault_token_account == vault.vault_token_account
            &&& next.share_mint == vault.share_mint
            &&& next.bump == vault.bump
        },
{
}

/// What a settlement gives, the opposite settlement takes back.
pub proof fn law_settlements_are_undone(vault: VaultState, tokens: u64, shares: u64)
    ensures
        vault.settled(Settlement::Credit { tokens, shares }) matches Ok(next) ==> next.settled(
            Settlement::Debit { tokens, shares },
        ) == Ok::<VaultState, VaultError>(vault),
        vault.settled(Settlement::Debit { tokens, shares }) matches Ok(next) ==> next.settled(
            Settlement::Credit { tokens, shares },
        ) == Ok::<VaultState, VaultError>(vault),
{
}

/// A vault signs with its own mint and its own bump, so that two vaults whose
/// signatures are alike have both in common.
pub proof fn law_signatures_tell_vaults_apart(vault: VaultState, other: VaultState)
    ensures
        vault.spec_signer().token_mint == vault.token_mint,
        vault.spec_signer().bump == vault.bump,
        vault.spec_signer() == other.spec_signer() <==> vault.token_mint == other.token_mint
            && vault.bump == other.bump,
{
}

/// An account is named in an error as clients know it.
pub proof fn law_roles_have_their_names(role: Role)
    ensures
        role is Admin ==> role.spec_name() == "admin"@,
        role is ClmmProgram ==> role.spec_name() == "clmm_program"@,
        role is PersonalPosition ==> role.spec_name() == "personal_position"@,
        role is PoolState ==> role.spec_name() == "pool_state"@,
        role is PositionNftAccount ==> role.spec_name() == "position_nft_account"@,
        role is PositionNftMint ==> role.spec_name() == "position_nft_mint"@,
        role is ShareMint ==> role.spec_name() == "share_mint"@,
        role is TickArrayLower ==> role.spec_name() == "tick_array_lower"@,
        role is TickArrayUpper ==> role.spec_name() == "tick_array_upper"@,
        role is TokenVault0 ==> role.spec_name() == "token_vault_0"@,
        role is TokenVault1 ==> role.spec_name() == "token_vault_1"@,
        role is User ==> role.spec_name() == "user"@,
        role is UserShareAccount ==> role.spec_name() == "user_share_account"@,
        role is UserTokenAccount ==> role.spec_name() == "user_token_account"@,
        role is VaultState ==> role.spec_name() == "vault_state"@,
        role is VaultTokenAccount ==> role.spec_name() == "vault_token_account"@,
        role is VaultWsolAccount ==> role.spec_name() == "vault_wsol_account"@,
{
}

} // verus!
