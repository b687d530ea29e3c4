//! What a deposit is answered, and what comes of it.

use crate::contexts::Deposit;
use crate::cpi::{Action, Call, Cpi, MintTo, Run, Settlement, Transfer, VaultSigner};
use crate::error::{Error, VaultError};
use crate::laws::course::{law_calls_come_in_order, Course};
use crate::state::VaultState;
use vstd::prelude::*;

verus! {

/// The shares that `amount` tokens are due: one each in a pool without tokens or
/// without shares, else the largest number that is no more than the depositor's
/// part of the pool.
pub open spec fn due(vault: VaultState, amount: u64, shares: int) -> bool {
    if vault.total_tokens == 0 || vault.total_shares == 0 {
        shares == amount
    } else {
        &&& shares * vault.total_tokens <= amount * vault.total_shares
        &&& amount * vault.total_shares < (shares + 1) * vault.total_tokens
    }
}

/// A number of shares that is due is the number that is quoted.
proof fn lemma_due_is_quoted(vault: VaultState, amount: u64, shares: int)
    requires
        due(vault, amount, shares),
    ensures
        vault.deposit_quote(amount) == (if amount == 0 {
            Err::<u64, VaultError>(VaultError::ZeroAmount)
        } else if shares > u64::MAX {
            Err(VaultError::MathOverflow)
        } else if shares == 0 {
            Err(VaultError::SharesTooSmall)
        } else {
            Ok(shares as u64)
        }),
        shares >= 0,
{
    let t = vault.total_tokens as int;
    let s = vault.total_shares as int;
    let a = amount as int;
    if t > 0 && s > 0 {
        let r = a * s - shares * t;
        assert(a * s == shares * t + r);
        assert(0 <= r < t) by (nonlinear_arith)
            requires
                r == a * s - shares * t,
                shares * t <= a * s,
                a * s < (shares + 1) * t,
        ;
        vstd::arithmetic::div_mod::lemma_fundamental_div_mod_converse(a * s, t, shares, r);
        assert(shares >= 0) by (nonlinear_arith)
            requires
                a >= 0,
                s >= 0,
                t > 0,
                a * s < (shares + 1) * t,
        ;
    }
}

/// Every deposit has a number of shares that is due.
proof fn lemma_some_shares_are_due(vault: VaultState, amount: u64) -> (shares: int)
    ensures
        due(vault, amount, shares),
{
    let t = vault.total_tokens as int;
    let s = vault.total_shares as int;
    let x = amount as int * s;
    if t == 0 || s == 0 {
        amount as int
    } else {
        vstd::arithmetic::div_mod::lemma_fundamental_div_mod(x, t);
        vstd::arithmetic::mul::lemma_mul_is_commutative(t, x / t);
        vstd::arithmetic::mul::lemma_mul_is_distributive_add_other_way(t, x / t, 1);
        x / t
    }
}

/// Which deposits are let through: all that bring a token and are worth a share,
/// unless the shares cannot be counted. A deposit into a pool without tokens or
/// without shares is let through whatever it brings, and so is one that is larger
/// than all that the pool holds.
pub proof fn law_deposits_are_let_through(accounts: Deposit, amount: u64, run: Result<Run, Error>)
    requires
        accounts.planned(amount, run),
    ensures
        ({
            let tokens = accounts.vault_state.state.total_tokens as int;
            let shares = accounts.vault_state.state.total_shares as int;
            let worth = amount * shares;
            if amount == 0 {
                run == Err::<Run, Error>(Error::Vault(VaultError::ZeroAmount))
            } else if tokens == 0 || shares == 0 {
                run is Ok
            } else if worth < tokens {
                run == Err::<Run, Error>(Error::Vault(VaultError::SharesTooSmall))
            } else if worth < tokens * 0x1_0000_0000_0000_0000 {
                run is Ok
            } else {
                run == Err::<Run, Error>(Error::Vault(VaultError::MathOverflow))
            }
        }),
{
    let vault = accounts.vault_state.state;
    let t = vault.total_tokens as int;
    let s = vault.total_shares as int;
    let a = amount as int;
    let q = lemma_some_shares_are_due(vault, amount);
    lemma_due_is_quoted(vault, amount, q);
    if t > 0 && s > 0 {
        let worth = a * s;
        assert(q == 0 <==> worth < t) by (nonlinear_arith)
            requires
                q >= 0,
                t > 0,
                q * t <= worth,
                worth < (q + 1) * t,
        ;
        assert(q < 0x1_0000_0000_0000_0000 <==> worth < t * 0x1_0000_0000_0000_0000)
            by (nonlinear_arith)
            requires
                q >= 0,
                t > 0,
                q * t <= worth,
                worth < (q + 1) * t,
        ;
    }
}

/// What comes of a deposit that is let through: the user's tokens go to the vault,
/// then the vault issues the shares that are due, then the books have grown by
/// both, where the counters hold the sums. Nothing more happens once a call fails.
pub proof fn law_deposits_do_what_they_promise(
    accounts: Deposit,
    amount: u64,
    shares: u64,
    course: Course,
    i: int,
)
    requires
        accounts.planned(amount, Ok::<Run, Error>(course.runs[0])),
        due(accounts.vault_state.state, amount, shares as int),
        course.valid(),
        0 <= i < course.actions.len(),
    ensures
        ({
            let vault = accounts.vault_state.state;
            course.actions[i] == (if !course.smooth_until(i) {
                Action::Abort
            } else if i == 0 {
                Action::Invoke(
                    Cpi {
                        program: accounts.token_program,
                        call: Call::Transfer(
                            Transfer {
                                from: accounts.user_token_account.key,
                                to: accounts.vault_token_account.key,
                                authority: accounts.user.key,
                                amount,
                            },
                        ),
                        signer: None,
                        forwards_remaining: false,
                    },
                )
            } else if i == 1 {
                Action::Invoke(
                    Cpi {
                        program: accounts.token_program,
                        call: Call::MintTo(
                            MintTo {
                                mint: accounts.share_mint.key,
                                to: accounts.user_share_account.key,
                                authority: accounts.vault_state.key,
                                amount: shares,
                            },
                        ),
                        signer: Some(VaultSigner { token_mint: vault.token_mint, bump: vault.bump }),
                        forwards_remaining: false,
                    },
                )
            } else if vault.total_tokens + amount <= u64::MAX && vault.total_shares + shares
                <= u64::MAX {
                Action::Commit(
                    VaultState {
                        admin: vault.admin,
                        token_mint: vault.token_mint,
                        vault_token_account: vault.vault_token_account,
                        share_mint: vault.share_mint,
                        total_tokens: (vault.total_tokens + amount) as u64,
                        total_shares: (vault.total_shares + shares) as u64,
                        bump: vault.bump,
                    },
                )
            } else {
                Action::Refuse(VaultError::MathOverflow)
            })
        }),
{
    let vault = accounts.vault_state.state;
    lemma_due_is_quoted(vault, amount, shares as int);
    law_calls_come_in_order(
        course,
        vault,
        accounts.calls(amount, shares),
        Settlement::Credit { tokens: amount, shares },
        i,
    );
}

/// The quote of a deposit is what is due, and says why where nothing can be given.
pub proof fn law_deposits_are_quoted(vault: VaultState, amount: u64, shares: int)
    requires
        due(vault, amount, shares),
    ensures
        vault.deposit_quote(amount) matches Ok(quote) ==> quote == shares,
        vault.deposit_quote(amount) is Ok <==> amount > 0 && 0 < shares <= u64::MAX,
        vault.deposit_quote(amount) == Err::<u64, VaultError>(VaultError::ZeroAmount) <==> amount
            == 0,
        vault.deposit_quote(amount) == Err::<u64, VaultError>(VaultError::SharesTooSmall) <==> amount
            > 0 && shares == 0,
        vault.deposit_quote(amount) == Err::<u64, VaultError>(VaultError::MathOverflow) <==> amount
            > 0 && shares > u64::MAX,
{
    lemma_due_is_quoted(vault, amount, shares);
}

} // verus!
