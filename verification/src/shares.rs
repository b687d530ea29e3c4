use crate::error::VaultError;
use crate::state::VaultState;
use vstd::prelude::*;

verus! {

/// The shares that `amount` tokens are worth in a pool of `tokens` tokens and
/// `shares` shares: one each in an empty pool, else in proportion, rounded down.
pub open spec fn minted(tokens: int, shares: int, amount: int) -> int {
    if shares == 0 || tokens == 0 {
        amount
    } else {
        amount * shares / tokens
    }
}

/// The tokens that `burned` shares are worth in a pool of `tokens` tokens and
/// `shares` shares, rounded down.
pub open spec fn redeemed(tokens: int, shares: int, burned: int) -> int {
    burned * tokens / shares
}

/// `x * y / z` without losing the middle of the computation, `None` where the
/// result does not fit.
fn mul_div(x: u64, y: u64, z: u64) -> (quotient: Option<u64>)
    ensures
        quotient == (if z == 0 || x * y / z as int > u64::MAX {
            None::<u64>
        } else {
            Some((x * y / z as int) as u64)
        }),
{
    assert(x as u128 * y as u128 <= u128::MAX) by (nonlinear_arith)
        requires
            x <= u64::MAX,
            y <= u64::MAX,
    ;
    let product = (x as u128).checked_mul(y as u128)?;
    let quotient = product.checked_div(z as u128)?;
    match u64::try_from(quotient) {
        Ok(fits) => Some(fits),
        Err(_) => None,
    }
}

impl VaultState {
    /// The shares that a deposit of `amount` tokens earns, and each reason to
    /// refuse it.
    pub open spec fn deposit_quote(self, amount: u64) -> Result<u64, VaultError> {
        let shares = minted(self.total_tokens as int, self.total_shares as int, amount as int);
        if amount == 0 {
            Err(VaultError::ZeroAmount)
        } else if shares > u64::MAX {
            Err(VaultError::MathOverflow)
        } else if shares == 0 {
            Err(VaultError::SharesTooSmall)
        } else {
            Ok(shares as u64)
        }
    }

    /// The tokens that `shares` shares redeem, and each reason to refuse them.
    pub open spec fn withdraw_quote(self, shares: u64) -> Result<u64, VaultError> {
        let tokens = redeemed(self.total_tokens as int, self.total_shares as int, shares as int);
        if shares == 0 {
            Err(VaultError::ZeroAmount)
        } else if self.total_shares == 0 {
            Err(VaultError::VaultEmpty)
        } else if tokens > u64::MAX {
            Err(VaultError::MathOverflow)
        } else if tokens == 0 {
            Err(VaultError::WithdrawTooSmall)
        } else {
            Ok(tokens as u64)
        }
    }

    /// How many shares a deposit of `amount` tokens earns.
    pub fn quote_deposit(&self, amount: u64) -> (quote: Result<u64, VaultError>)
        ensures
            quote == self.deposit_quote(amount),
    {
        if amount == 0 {
            return Err(VaultError::ZeroAmount);
        }
        let shares = if self.total_shares == 0 || self.total_tokens == 0 {
            amount
        } else {
            match mul_div(amount, self.total_shares, self.total_tokens) {
                Some(shares) => shares,
                None => return Err(VaultError::MathOverflow),
            }
        };
        if shares == 0 {
            return Err(VaultError::SharesTooSmall);
        }
        Ok(shares)
    }

    /// How many tokens `shares` shares redeem.
    pub fn quote_withdraw(&self, shares: u64) -> (quote: Result<u64, VaultError>)
        ensures
            quote == self.withdraw_quote(shares),
    {
        if shares == 0 {
            return Err(VaultError::ZeroAmount);
        }
        if self.total_shares == 0 {
            return Err(VaultError::VaultEmpty);
        }
        let tokens = match mul_div(shares, self.total_tokens, self.total_shares) {
            Some(tokens) => tokens,
            None => return Err(VaultError::MathOverflow),
        };
        if tokens == 0 {
            return Err(VaultError::WithdrawTooSmall);
        }
        Ok(tokens)
    }
}

} // verus!
