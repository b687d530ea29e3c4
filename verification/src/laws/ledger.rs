//! The books of the vault and the balances that the token program keeps.

use crate::accounts::TokenAccount;
use crate::contexts::{derived_for, Deposit, Withdraw};
use crate::cpi::{Action, Burn, Call, MintTo, Run, Settlement, Transfer};
use crate::error::Error;
use crate::laws::course::{law_all_or_nothing, law_calls_come_in_order, Course};
use crate::pda::created_address;
use crate::pubkey::Pubkey;
use crate::state::VaultState;
use vstd::prelude::*;

verus! {

/// What accounts hold and how much of each token there is.
pub struct Ledger {
    pub balance: spec_fn(Pubkey) -> int,
    pub supply: spec_fn(Pubkey) -> int,
}

impl Ledger {
    /// The ledger after a call; calls that move no token leave it as it is.
    /// What the Raydium program does is not modelled: `None`.
    pub open spec fn after(self, call: Call) -> Option<Ledger> {
        match call {
            Call::Transfer(t) => Some(self.moved(t)),
            Call::MintTo(m) => Some(self.issued(m)),
            Call::Burn(b) => Some(self.burned(b)),
            Call::Approve(_) => Some(self),
            Call::Revoke(_) => Some(self),
            _ => None,
        }
    }

    pub open spec fn moved(self, t: Transfer) -> Ledger {
        Ledger {
            balance: |key: Pubkey|
                (self.balance)(key) - (if key == t.from {
                    t.amount as int
                } else {
                    0
                }) + (if key == t.to {
                    t.amount as int
                } else {
                    0
                }),
            supply: self.supply,
        }
    }

    pub open spec fn issued(self, m: MintTo) -> Ledger {
        Ledger {
            balance: |key: Pubkey|
                (self.balance)(key) + (if key == m.to {
                    m.amount as int
                } else {
                    0
                }),
            supply: |mint: Pubkey|
                (self.supply)(mint) + (if mint == m.mint {
                    m.amount as int
                } else {
                    0
                }),
        }
    }

    pub open spec fn burned(self, b: Burn) -> Ledger {
        Ledger {
            balance: |key: Pubkey|
                (self.balance)(key) - (if key == b.from {
                    b.amount as int
                } else {
                    0
                }),
            supply: |mint: Pubkey|
                (self.supply)(mint) - (if mint == b.mint {
                    b.amount as int
                } else {
                    0
                }),
        }
    }

    /// The ledger after some actions, of which only calls move anything.
    pub open spec fn after_all(self, actions: Seq<Action>) -> Option<Ledger>
        decreases actions.len(),
    {
        if actions.len() == 0 {
            Some(self)
        } else {
            match (self.after_all(actions.drop_last()), actions.last()) {
                (Some(before), Action::Invoke(cpi)) => before.after(cpi.call),
                (before, _) => before,
            }
        }
    }

    /// The books say what there is: the tokens in the vault's account, and the
    /// shares that have been issued.
    pub open spec fn agrees_with(
        self,
        vault: VaultState,
        vault_tokens: Pubkey,
        share_mint: Pubkey,
    ) -> bool {
        &&& (self.balance)(vault_tokens) == vault.total_tokens
        &&& (self.supply)(share_mint) == vault.total_shares
    }
}

/// Two token accounts are told apart by their addresses: what is read at one
/// address is one account.
pub open spec fn one_per_address(a: TokenAccount, b: TokenAccount) -> bool {
    a.key == b.key ==> a == b
}

/// No seeds of the program lead to the address, so that there can be a private
/// key for it and somebody can sign with that.
pub open spec fn can_sign(key: Pubkey, program: Pubkey) -> bool {
    forall|prefix: Seq<u8>, mint: Seq<u8>, bump: u8|
        #[trigger] created_address(prefix, mint, bump, program@) != Some(key@)
}

/// The ledger after two calls and whatever else an instruction does up to its end.
proof fn lemma_after_two_calls(ledger: Ledger, actions: Seq<Action>)
    requires
        actions.len() >= 2,
        actions[0] is Invoke,
        actions[1] is Invoke,
        forall|k: int| 2 <= k < actions.len() ==> !(#[trigger] actions[k] is Invoke),
    ensures
        ledger.after_all(actions) == match ledger.after(actions[0]->Invoke_0.call) {
            Some(between) => between.after(actions[1]->Invoke_0.call),
            None => None,
        },
    decreases actions.len(),
{
    reveal_with_fuel(Ledger::after_all, 3);
    if actions.len() > 2 {
        lemma_after_two_calls(ledger, actions.drop_last());
    } else {
        assert(actions.drop_last().drop_last().len() == 0);
    }
}

/// A deposit that ends well moves the balance of the vault and the supply of its
/// shares exactly as it moves the books, takes the tokens from the user and gives
/// the user the shares. So books that agree with the balances still agree with
/// them afterwards. What the user brings is not the vault's own account: see
/// [`law_signers_of_deposits_are_not_the_vault`].
pub proof fn law_deposits_keep_the_books(
    accounts: Deposit,
    amount: u64,
    course: Course,
    i: int,
    ledger: Ledger,
)
    requires
        course.valid(),
        accounts.planned(amount, Ok::<Run, Error>(course.runs[0])),
        0 <= i < course.actions.len(),
        accounts.vault_token_account.key != accounts.user_token_account.key,
        accounts.vault_token_account.key != accounts.user_share_account.key,
    ensures
        course.actions[i] matches Action::Commit(stored) ==> {
            let vault = accounts.vault_state.state;
            let vault_tokens = accounts.vault_token_account.key;
            let share_mint = accounts.share_mint.key;
            let user_tokens = accounts.user_token_account.key;
            let user_shares = accounts.user_share_account.key;
            &&& ledger.after_all(course.actions.take(i)) matches Some(after)
            &&& ledger.agrees_with(vault, vault_tokens, share_mint) ==> after.agrees_with(
                stored,
                vault_tokens,
                share_mint,
            )
            &&& (after.balance)(vault_tokens) - stored.total_tokens == (ledger.balance)(
                vault_tokens,
            ) - vault.total_tokens
            &&& (after.supply)(share_mint) - stored.total_shares == (ledger.supply)(share_mint)
                - vault.total_shares
            &&& user_tokens != user_shares ==> {
                &&& (after.balance)(user_tokens) == (ledger.balance)(user_tokens) - amount
                &&& (after.balance)(user_shares) == (ledger.balance)(user_shares) + (
                stored.total_shares - vault.total_shares)
            }
        },
{
    let vault = accounts.vault_state.state;
    let quote = vault.deposit_quote(amount)->Ok_0;
    let calls = accounts.calls(amount, quote);
    let settlement = Settlement::Credit { tokens: amount, shares: quote };
    law_all_or_nothing(course, vault, calls, settlement, i);
    if course.actions[i] is Commit {
        let done = course.actions.take(i);
        assert(course.actions[0] == Action::Invoke(calls[0]));
        assert(course.actions[1] == Action::Invoke(calls[1]));
        assert forall|k: int| 2 <= k < done.len() implies !(#[trigger] done[k] is Invoke) by {
            law_calls_come_in_order(course, vault, calls, settlement, k);
        }
        lemma_after_two_calls(ledger, done);
    }
}

/// A withdrawal that ends well moves the balance of the vault and the supply of
/// its shares exactly as it moves the books, takes the shares from the user and
/// gives the user the tokens. So books that agree with the balances still agree
/// with them afterwards. What the user brings is not the vault's own account: see
/// [`law_signers_of_withdrawals_are_not_the_vault`].
pub proof fn law_withdrawals_keep_the_books(
    accounts: Withdraw,
    shares: u64,
    course: Course,
    i: int,
    ledger: Ledger,
)
    requires
        course.valid(),
        accounts.planned(shares, Ok::<Run, Error>(course.runs[0])),
        0 <= i < course.actions.len(),
        accounts.vault_token_account.key != accounts.user_token_account.key,
        accounts.vault_token_account.key != accounts.user_share_account.key,
    ensures
        course.actions[i] matches Action::Commit(stored) ==> {
            let vault = accounts.vault_state.state;
            let vault_tokens = accounts.vault_token_account.key;
            let share_mint = accounts.share_mint.key;
            let user_tokens = accounts.user_token_account.key;
            let user_shares = accounts.user_share_account.key;
            &&& ledger.after_all(course.actions.take(i)) matches Some(after)
            &&& ledger.agrees_with(vault, vault_tokens, share_mint) ==> after.agrees_with(
                stored,
                vault_tokens,
                share_mint,
            )
            &&& (after.balance)(vault_tokens) - stored.total_tokens == (ledger.balance)(
                vault_tokens,
            ) - vault.total_tokens
            &&& (after.supply)(share_mint) - stored.total_shares == (ledger.supply)(share_mint)
                - vault.total_shares
            &&& user_tokens != user_shares ==> {
                &&& (after.balance)(user_tokens) == (ledger.balance)(user_tokens) + (
                vault.total_tokens - stored.total_tokens)
                &&& (after.balance)(user_shares) == (ledger.balance)(user_shares) - shares
            }
        },
{
    let vault = accounts.vault_state.state;
    let quote = vault.withdraw_quote(shares)->Ok_0;
    let calls = accounts.calls(shares, quote);
    let settlement = Settlement::Debit { tokens: quote, shares };
    law_all_or_nothing(course, vault, calls, settlement, i);
    if course.actions[i] is Commit {
        let done = course.actions.take(i);
        assert(course.actions[0] == Action::Invoke(calls[0]));
        assert(course.actions[1] == Action::Invoke(calls[1]));
        assert forall|k: int| 2 <= k < done.len() implies !(#[trigger] done[k] is Invoke) by {
            law_calls_come_in_order(course, vault, calls, settlement, k);
        }
        lemma_after_two_calls(ledger, done);
    }
}

/// Whoever can sign a deposit cannot pass off the vault's own account as theirs.
pub proof fn law_signers_of_deposits_are_not_the_vault(program: Pubkey, accounts: Deposit)
    requires
        accounts.verdict(derived_for(accounts.vault_state.state, program)) is Ok,
        can_sign(accounts.user.key, program),
        one_per_address(accounts.vault_token_account, accounts.user_token_account),
        one_per_address(accounts.vault_token_account, accounts.user_share_account),
    ensures
        accounts.user.key != accounts.vault_state.key,
        accounts.vault_token_account.key != accounts.user_token_account.key,
        accounts.vault_token_account.key != accounts.user_share_account.key,
{
    reveal_with_fuel(crate::accounts::first_refusal_from, 14);
}

/// Whoever can sign a withdrawal cannot pass off the vault's own account as theirs.
pub proof fn law_signers_of_withdrawals_are_not_the_vault(program: Pubkey, accounts: Withdraw)
    requires
        accounts.verdict(derived_for(accounts.vault_state.state, program)) is Ok,
        can_sign(accounts.user.key, program),
        one_per_address(accounts.vault_token_account, accounts.user_token_account),
        one_per_address(accounts.vault_token_account, accounts.user_share_account),
    ensures
        accounts.user.key != accounts.vault_state.key,
        accounts.vault_token_account.key != accounts.user_token_account.key,
        accounts.vault_token_account.key != accounts.user_share_account.key,
{
    reveal_with_fuel(crate::accounts::first_refusal_from, 14);
}

} // verus!
