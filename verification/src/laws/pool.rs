//! The pool of tokens and shares.

use crate::contexts::InitializeVault;
use crate::cpi::Settlement;
use crate::error::VaultError;
use crate::instructions::open_position::PositionTerms;
use crate::shares::{minted, redeemed};
use crate::state::VaultState;
use vstd::prelude::*;

verus! {

/// Something that is done with a vault.
pub enum Operation {
    Deposit(u64),
    Withdraw(u64),
    OpenPosition(PositionTerms),
    ClosePosition,
}

impl VaultState {
    /// The vault after an operation whose calls all go through.
    pub open spec fn after(self, operation: Operation) -> Result<VaultState, VaultError> {
        match operation {
            Operation::Deposit(amount) => match self.deposit_quote(amount) {
                Ok(shares) => self.settled(Settlement::Credit { tokens: amount, shares }),
                Err(error) => Err(error),
            },
            Operation::Withdraw(shares) => match self.withdraw_quote(shares) {
                Ok(tokens) => self.settled(Settlement::Debit { tokens, shares }),
                Err(error) => Err(error),
            },
            Operation::OpenPosition(terms) => match terms.verdict() {
                Ok(_) => self.settled(Settlement::Unchanged),
                Err(error) => Err(error),
            },
            Operation::ClosePosition => self.settled(Settlement::Unchanged),
        }
    }

    /// The vault after some operations, of which those that are refused leave no trace.
    pub open spec fn after_all(self, operations: Seq<Operation>) -> VaultState
        decreases operations.len(),
    {
        if operations.len() == 0 {
            self
        } else {
            let before = self.after_all(operations.drop_last());
            match before.after(operations.last()) {
                Ok(vault) => vault,
                Err(_) => before,
            }
        }
    }
}

/// A quotient is the largest number of divisors that fits.
proof fn lemma_quotient(x: int, z: int)
    requires
        z > 0,
    ensures
        x / z * z <= x,
        x < (x / z + 1) * z,
        x >= 0 ==> x / z >= 0,
{
    vstd::arithmetic::div_mod::lemma_fundamental_div_mod(x, z);
    vstd::arithmetic::mul::lemma_mul_is_commutative(z, x / z);
    vstd::arithmetic::mul::lemma_mul_is_distributive_add_other_way(z, x / z, 1);
    if x >= 0 {
        vstd::arithmetic::div_mod::lemma_div_pos_is_pos(x, z);
    }
}

/// What at most `n` times `z` fits in is at most `n`.
proof fn lemma_quotient_at_most(x: int, z: int, n: int)
    requires
        z > 0,
        x <= n * z,
    ensures
        x / z <= n,
{
    lemma_quotient(x, z);
    let q = x / z;
    assert(q <= n) by (nonlinear_arith)
        requires
            q * z <= n * z,
            z > 0,
    ;
}

/// A quotient of an exact product is the factor.
proof fn lemma_quotient_exact(n: int, z: int)
    requires
        n >= 0,
        z > 0,
    ensures
        n * z / z == n,
{
    vstd::arithmetic::div_mod::lemma_div_by_multiple(n, z);
}

/// Withdrawing every share pays out every token and leaves the vault empty.
pub proof fn law_last_withdrawal_empties(vault: VaultState)
    requires
        vault.total_shares > 0,
        vault.total_tokens > 0,
    ensures
        vault.withdraw_quote(vault.total_shares) == Ok::<u64, VaultError>(vault.total_tokens),
        vault.after(Operation::Withdraw(vault.total_shares)) == Ok::<VaultState, VaultError>(
            vault.with_totals(0, 0),
        ),
{
    let t = vault.total_tokens as int;
    let s = vault.total_shares as int;
    lemma_quotient_exact(t, s);
    vstd::arithmetic::mul::lemma_mul_is_commutative(s, t);
}

/// Only shares that exist can be withdrawn, and they always can be once they
/// are worth a token: the books never fall below zero.
pub proof fn law_withdrawals_are_covered(vault: VaultState, shares: u64)
    ensures
        vault.withdraw_quote(shares) matches Ok(tokens) ==> (shares <= vault.total_shares ==> tokens
            <= vault.total_tokens),
        vault.after(Operation::Withdraw(shares)) is Ok <==> shares <= vault.total_shares
            && vault.withdraw_quote(shares) is Ok,
        shares > vault.total_shares ==> vault.after(Operation::Withdraw(shares)) is Err,
{
    let t = vault.total_tokens as int;
    let s = vault.total_shares as int;
    if s > 0 && shares <= s {
        assert(shares as int * t <= t * s) by (nonlinear_arith)
            requires
                0 <= shares <= s,
                0 <= t,
        ;
        lemma_quotient_at_most(shares as int * t, s, t);
    }
}

/// Every operation keeps tokens and shares both there or both gone: no share is
/// left without tokens behind it, and no token without shares.
pub proof fn law_operations_keep_balance(vault: VaultState, operation: Operation)
    requires
        vault.balanced(),
    ensures
        vault.after(operation) matches Ok(next) ==> next.balanced(),
{
    let t = vault.total_tokens as int;
    let s = vault.total_shares as int;
    match operation {
        Operation::Deposit(amount) => {},
        Operation::Withdraw(shares) => {
            law_withdrawals_are_covered(vault, shares);
            if vault.after(operation) is Ok {
                if shares == s {
                    law_last_withdrawal_empties(vault);
                } else {
                    let q = redeemed(t, s, shares as int);
                    lemma_quotient(shares as int * t, s);
                    assert(q < t) by (nonlinear_arith)
                        requires
                            q * s <= shares as int * t,
                            0 <= shares < s,
                            t > 0,
                    ;
                }
            }
        },
        _ => {},
    }
}

/// No operation lowers what a share is worth: rounding is in favour of those
/// who stay.
pub proof fn law_shares_keep_their_worth(vault: VaultState, operation: Operation)
    requires
        vault.balanced(),
    ensures
        vault.after(operation) matches Ok(next) ==> vault.total_tokens * next.total_shares
            <= next.total_tokens * vault.total_shares,
{
    let t = vault.total_tokens as int;
    let s = vault.total_shares as int;
    match operation {
        Operation::Deposit(amount) => {
            let a = amount as int;
            let q = minted(t, s, a);
            if t > 0 && vault.after(operation) is Ok {
                lemma_quotient(a * s, t);
                assert(t * (s + q) <= (t + a) * s) by (nonlinear_arith)
                    requires
                        q * t <= a * s,
                ;
            }
        },
        Operation::Withdraw(shares) => {
            let b = shares as int;
            let q = redeemed(t, s, b);
            if s > 0 && vault.after(operation) is Ok {
                lemma_quotient(b * t, s);
                assert(t * (s - b) <= (t - q) * s) by (nonlinear_arith)
                    requires
                        q * s <= b * t,
                ;
            }
        },
        _ => {},
    }
}

/// Withdrawing the shares of a deposit right away never pays more than the deposit.
pub proof fn law_round_trip_never_gains(vault: VaultState, amount: u64)
    requires
        vault.balanced(),
    ensures
        vault.deposit_quote(amount) matches Ok(shares) ==> (vault.after(Operation::Deposit(amount))
            matches Ok(next) ==> (next.withdraw_quote(shares) matches Ok(tokens) ==> tokens
            <= amount)),
{
    let t = vault.total_tokens as int;
    let s = vault.total_shares as int;
    let a = amount as int;
    let q = minted(t, s, a);
    if vault.deposit_quote(amount) is Ok && vault.after(Operation::Deposit(amount)) is Ok {
        if t > 0 {
            lemma_quotient(a * s, t);
            assert(q * (t + a) <= a * (s + q)) by (nonlinear_arith)
                requires
                    q * t <= a * s,
            ;
        }
        lemma_quotient_at_most(q * (t + a), s + q, a);
    }
}

/// The first deposit comes back whole.
pub proof fn law_first_deposit_comes_back(vault: VaultState, amount: u64)
    requires
        vault.total_tokens == 0,
        vault.total_shares == 0,
        amount > 0,
    ensures
        vault.deposit_quote(amount) == Ok::<u64, VaultError>(amount),
        vault.after(Operation::Deposit(amount)) == Ok::<VaultState, VaultError>(
            vault.with_totals(amount, amount),
        ),
        vault.with_totals(amount, amount).withdraw_quote(amount) == Ok::<u64, VaultError>(amount),
{
    lemma_quotient_exact(amount as int, amount as int);
}

/// A larger deposit never earns fewer shares.
pub proof fn law_larger_deposits_earn_no_less(vault: VaultState, less: u64, more: u64)
    requires
        less <= more,
    ensures
        vault.deposit_quote(less) matches Ok(fewer) ==> (vault.deposit_quote(more) matches Ok(shares)
            ==> fewer <= shares),
{
    let t = vault.total_tokens as int;
    let s = vault.total_shares as int;
    if t > 0 && s > 0 {
        assert(less as int * s <= more as int * s) by (nonlinear_arith)
            requires
                less <= more,
                s > 0,
        ;
        vstd::arithmetic::div_mod::lemma_div_is_ordered(less as int * s, more as int * s, t);
    }
}

/// Withdrawing in two parts never pays more than withdrawing at once.
pub proof fn law_splitting_a_withdrawal_never_gains(vault: VaultState, first: u64, second: u64)
    requires
        first + second <= vault.total_shares,
    ensures
        vault.withdraw_quote(first) matches Ok(early) ==> (vault.after(Operation::Withdraw(first))
            matches Ok(next) ==> (next.withdraw_quote(second) matches Ok(late) ==> early + late
            <= redeemed(
            vault.total_tokens as int,
            vault.total_shares as int,
            first + second,
        ))),
{
    let t = vault.total_tokens as int;
    let s = vault.total_shares as int;
    let f = first as int;
    let g = second as int;
    if vault.withdraw_quote(first) is Ok && vault.after(Operation::Withdraw(first)) is Ok {
        let early = redeemed(t, s, f);
        lemma_quotient(f * t, s);
        if g > 0 && s - f > 0 {
            let late = redeemed(t - early, s - f, g);
            lemma_quotient(g * (t - early), s - f);
            lemma_quotient((f + g) * t, s);
            let whole = redeemed(t, s, f + g);
            lemma_split(t, s, f, g, early, late, whole);
        }
    }
}

proof fn lemma_split(t: int, s: int, f: int, g: int, early: int, late: int, whole: int)
    requires
        0 <= t,
        0 <= f,
        0 < g,
        f + g <= s,
        early * s <= f * t,
        late * (s - f) <= g * (t - early),
        (f + g) * t < (whole + 1) * s,
    ensures
        early + late <= whole,
{
    let r = s - f;
    assert(late * s * r <= g * t * s - g * early * s) by (nonlinear_arith)
        requires
            late * r <= g * (t - early),
            s > 0,
    ;
    assert(early * s * (r - g) <= f * t * (r - g)) by (nonlinear_arith)
        requires
            early * s <= f * t,
            g <= r,
    ;
    assert((early + late) * s * r == early * s * (r - g) + g * early * s + late * s * r)
        by (nonlinear_arith);
    assert((f + g) * t * r == f * t * (r - g) + g * t * s) by (nonlinear_arith)
        requires
            r == s - f,
    ;
    assert((early + late) * s <= (f + g) * t) by (nonlinear_arith)
        requires
            (early + late) * s * r <= (f + g) * t * r,
            r > 0,
    ;
    assert(early + late < whole + 1) by (nonlinear_arith)
        requires
            (early + late) * s < (whole + 1) * s,
            s > 0,
    ;
}

/// No operation touches anything but the totals.
pub proof fn law_operations_move_only_the_totals(vault: VaultState, operation: Operation)
    ensures
        vault.after(operation) matches Ok(next) ==> next == vault.with_totals(
            next.total_tokens,
            next.total_shares,
        ),
{
}

/// A vault whose tokens and shares are equal in number deals one for one, and
/// stays so.
pub proof fn law_par_is_kept(vault: VaultState, operation: Operation)
    requires
        vault.total_tokens == vault.total_shares,
    ensures
        vault.after(operation) matches Ok(next) ==> next.total_tokens == next.total_shares,
        match operation {
            Operation::Deposit(amount) => vault.deposit_quote(amount) == (if amount == 0 {
                Err::<u64, VaultError>(VaultError::ZeroAmount)
            } else {
                Ok(amount)
            }),
            Operation::Withdraw(shares) => vault.withdraw_quote(shares) == (if shares == 0 {
                Err::<u64, VaultError>(VaultError::ZeroAmount)
            } else if vault.total_shares == 0 {
                Err(VaultError::VaultEmpty)
            } else {
                Ok(shares)
            }),
            _ => true,
        },
{
    let t = vault.total_tokens as int;
    if t > 0 {
        match operation {
            Operation::Deposit(amount) => lemma_quotient_exact(amount as int, t),
            Operation::Withdraw(shares) => lemma_quotient_exact(shares as int, t),
            _ => {},
        }
    }
}

/// Whatever deposits, withdrawals, openings and closings of positions a new vault
/// has seen, its books hold one token for each share: every deposit earns as many
/// shares as it brings tokens, every share redeems one token, and once all shares
/// are gone no token is left in the books. Nothing but the totals ever changes.
pub proof fn law_every_share_is_backed(
    accounts: InitializeVault,
    bump: u8,
    operations: Seq<Operation>,
)
    ensures
        ({
            let vault = accounts.opened(bump).after_all(operations);
            &&& vault.total_tokens == vault.total_shares
            &&& vault == accounts.opened(bump).with_totals(vault.total_tokens, vault.total_shares)
            &&& forall|amount: u64|
                amount > 0 ==> #[trigger] vault.deposit_quote(amount) == Ok::<u64, VaultError>(amount)
            &&& forall|shares: u64|
                shares > 0 && vault.total_shares > 0 ==> #[trigger] vault.withdraw_quote(shares)
                    == Ok::<u64, VaultError>(shares)
        }),
    decreases operations.len(),
{
    let vault = accounts.opened(bump).after_all(operations);
    if operations.len() > 0 {
        law_every_share_is_backed(accounts, bump, operations.drop_last());
        let before = accounts.opened(bump).after_all(operations.drop_last());
        law_par_is_kept(before, operations.last());
        law_operations_move_only_the_totals(before, operations.last());
    }
    assert forall|amount: u64| amount > 0 implies #[trigger] vault.deposit_quote(amount) == Ok::<
        u64,
        VaultError,
    >(amount) by {
        law_par_is_kept(vault, Operation::Deposit(amount));
    }
    assert forall|shares: u64|
        shares > 0 && vault.total_shares > 0 implies #[trigger] vault.withdraw_quote(shares)
            == Ok::<u64, VaultError>(shares) by {
        law_par_is_kept(vault, Operation::Withdraw(shares));
    }
}

} // verus!
