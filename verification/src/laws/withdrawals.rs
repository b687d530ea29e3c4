//! What a withdrawal is answered, and what comes of it.

use crate::contexts::Withdraw;
use crate::cpi::{Action, Burn, Call, Cpi, Run, Settlement, Transfer, VaultSigner};
use crate::error::{Error, VaultError};
use crate::laws::course::{law_calls_come_in_order, Course};
use crate::state::VaultState;
use vstd::prelude::*;

verus! {

/// The tokens that `shares` shares are worth: the largest number that is no more
/// than their part of the pool.
pub open spec fn worth(vault: VaultState, shares: u64, tokens: int) -> bool {
    &&& tokens * vault.total_shares <= shares * vault.total_tokens
    &&& shares * vault.total_tokens < (tokens + 1) * vault.total_shares
}

/// A number of tokens that shares are worth is the number that is quoted.
proof fn lemma_worth_is_quoted(vault: VaultState, shares: u64, tokens: int)
    requires
        vault.total_shares > 0,
        worth(vault, shares, tokens),
    ensures
        vault.withdraw_quote(shares) == (if shares == 0 {
            Err::<u64, VaultError>(VaultError::ZeroAmount)
        } else if tokens > u64::MAX {
            Err(VaultError::MathOverflow)
        } else if tokens == 0 {
            Err(VaultError::WithdrawTooSmall)
        } else {
            Ok(tokens as u64)
        }),
        tokens >= 0,
{
    let t = vault.total_tokens as int;
    let s = vault.total_shares as int;
    let b = shares as int;
    let r = b * t - tokens * s;
    assert(b * t == tokens * s + r);
    assert(0 <= r < s) by (nonlinear_arith)
        requires
            r == b * t - tokens * s,
            tokens * s <= b * t,
            b * t < (tokens + 1) * s,
    ;
    vstd::arithmetic::div_mod::lemma_fundamental_div_mod_converse(b * t, s, tokens, r);
    assert(tokens >= 0) by (nonlinear_arith)
        requires
            b >= 0,
            t >= 0,
            s > 0,
            b * t < (tokens + 1) * s,
    ;
}

/// Where there are shares, any number of them is worth some number of tokens.
proof fn lemma_shares_are_worth_something(vault: VaultState, shares: u64) -> (tokens: int)
    requires
        vault.total_shares > 0,
    ensures
        worth(vault, shares, tokens),
{
    let s = vault.total_shares as int;
    let x = shares as int * vault.total_tokens as int;
    vstd::arithmetic::div_mod::lemma_fundamental_div_mod(x, s);
    vstd::arithmetic::mul::lemma_mul_is_commutative(s, x / s);
    vstd::arithmetic::mul::lemma_mul_is_distributive_add_other_way(s, x / s, 1);
    x / s
}

/// Which withdrawals are let through: all of some shares that are worth a token,
/// unless the tokens cannot be counted. The last holder can take everything out.
pub proof fn law_withdrawals_are_let_through(
    accounts: Withdraw,
    shares: u64,
    run: Result<Run, Error>,
)
    requires
        accounts.planned(shares, run),
    ensures
        ({
            let all_tokens = accounts.vault_state.state.total_tokens as int;
            let all_shares = accounts.vault_state.state.total_shares as int;
            let part = shares * all_tokens;
            &&& if shares == 0 {
                run == Err::<Run, Error>(Error::Vault(VaultError::ZeroAmount))
            } else if all_shares == 0 {
                run == Err::<Run, Error>(Error::Vault(VaultError::VaultEmpty))
            } else if part < all_shares {
                run == Err::<Run, Error>(Error::Vault(VaultError::WithdrawTooSmall))
            } else if part < all_shares * 0x1_0000_0000_0000_0000 {
                run is Ok
            } else {
                run == Err::<Run, Error>(Error::Vault(VaultError::MathOverflow))
            }
            &&& 0 < shares <= all_shares <= part ==> run is Ok
            &&& 0 < shares == all_shares && 0 < all_tokens ==> run is Ok
        }),
{
    let vault = accounts.vault_state.state;
    let t = vault.total_tokens as int;
    let s = vault.total_shares as int;
    let b = shares as int;
    if s > 0 {
        let q = lemma_shares_are_worth_something(vault, shares);
        lemma_worth_is_quoted(vault, shares, q);
        let part = b * t;
        assert(q == 0 <==> part < s) by (nonlinear_arith)
            requires
                q >= 0,
                s > 0,
                q * s <= part,
                part < (q + 1) * s,
        ;
        assert(q < 0x1_0000_0000_0000_0000 <==> part < s * 0x1_0000_0000_0000_0000)
            by (nonlinear_arith)
            requires
                q >= 0,
                s > 0,
                q * s <= part,
                part < (q + 1) * s,
        ;
        if b <= s {
            assert(part < s * 0x1_0000_0000_0000_0000) by (nonlinear_arith)
                requires
                    part == b * t,
                    0 <= b <= s,
                    0 <= t < 0x1_0000_0000_0000_0000,
                    s > 0,
            ;
        }
        if b == s && t > 0 {
            assert(part >= s) by (nonlinear_arith)
                requires
                    part == b * t,
                    b == s,
                    t > 0,
                    s > 0,
            ;
        }
    }
}

/// What comes of a withdrawal that is let through: the user's shares are burned,
/// then the vault pays what they are worth, then the books have shrunk by both,
/// where there was as much. Nothing more happens once a call fails.
pub proof fn law_withdrawals_do_what_they_promise(
    accounts: Withdraw,
    shares: u64,
    tokens: u64,
    course: Course,
    i: int,
)
    requires
        accounts.planned(shares, Ok::<Run, Error>(course.runs[0])),
        worth(accounts.vault_state.state, shares, tokens as int),
        course.valid(),
        0 <= i < course.actions.len(),
    ensures
        ({
            let vault = accounts.vault_state.state;
            course.actions[i] == (if !course.smooth_until(i) {
                Action::Abort
            } else if i == 0 {
                Action::Invoke(
                    Cpi {
                        program: accounts.token_program,
                        call: Call::Burn(
                            Burn {
                                mint: accounts.share_mint.key,
                                from: accounts.user_share_account.key,
                                authority: accounts.user.key,
                                amount: shares,
                            },
                        ),
                        signer: None,
                        forwards_remaining: false,
                    },
                )
            } else if i == 1 {
                Action::Invoke(
                    Cpi {
                        program: accounts.token_program,
                        call: Call::Transfer(
                            Transfer {
                                from: accounts.vault_token_account.key,
                                to: accounts.user_token_account.key,
                                authority: accounts.vault_state.key,
                                amount: tokens,
                            },
                        ),
                        signer: Some(VaultSigner { token_mint: vault.token_mint, bump: vault.bump }),
                        forwards_remaining: false,
                    },
                )
            } else if tokens <= vault.total_tokens && shares <= vault.total_shares {
                Action::Commit(
                    VaultState {
                        admin: vault.admin,
                        token_mint: vault.token_mint,
                        vault_token_account: vault.vault_token_account,
                        share_mint: vault.share_mint,
                        total_tokens: (vault.total_tokens - tokens) as u64,
                        total_shares: (vault.total_shares - shares) as u64,
                        bump: vault.bump,
                    },
                )
            } else {
                Action::Refuse(VaultError::MathOverflow)
            })
        }),
        shares <= accounts.vault_state.state.total_shares ==> tokens
            <= accounts.vault_state.state.total_tokens,
{
    let vault = accounts.vault_state.state;
    law_withdrawals_are_let_through(accounts, shares, Ok(course.runs[0]));
    lemma_worth_is_quoted(vault, shares, tokens as int);
    law_calls_come_in_order(
        course,
        vault,
        accounts.calls(shares, tokens),
        Settlement::Debit { tokens, shares },
        i,
    );
    crate::laws::pool::law_withdrawals_are_covered(vault, shares);
}

/// The quote of a withdrawal is what the shares are worth, and says why where
/// nothing can be given.
pub proof fn law_withdrawals_are_quoted(vault: VaultState, shares: u64, tokens: int)
    requires
        vault.total_shares > 0 ==> worth(vault, shares, tokens),
    ensures
        shares == 0 <==> vault.withdraw_quote(shares) == Err::<u64, VaultError>(
            VaultError::ZeroAmount,
        ),
        shares > 0 && vault.total_shares == 0 <==> vault.withdraw_quote(shares) == Err::<
            u64,
            VaultError,
        >(VaultError::VaultEmpty),
        shares > 0 && vault.total_shares > 0 && tokens == 0 <==> vault.withdraw_quote(shares)
            == Err::<u64, VaultError>(VaultError::WithdrawTooSmall),
        shares > 0 && vault.total_shares > 0 && tokens > u64::MAX <==> vault.withdraw_quote(shares)
            == Err::<u64, VaultError>(VaultError::MathOverflow),
        shares > 0 && vault.total_shares > 0 && 0 < tokens <= u64::MAX <==> vault.withdraw_quote(
            shares,
        ) is Ok,
        vault.withdraw_quote(shares) matches Ok(quote) ==> quote == tokens,
{
    if vault.total_shares > 0 {
        lemma_worth_is_quoted(vault, shares, tokens);
    }
}

} // verus!
