use simple_vault::cpi::Settlement;
use simple_vault::{VaultError, VaultState};

fn pool(total_tokens: u64, total_shares: u64) -> VaultState {
    VaultState { total_tokens, total_shares, ..VaultState::default() }
}

fn after_deposit(vault: &VaultState, amount: u64) -> Result<(u64, VaultState), VaultError> {
    let shares = vault.quote_deposit(amount)?;
    Ok((shares, vault.settle(Settlement::Credit { tokens: amount, shares })?))
}

fn after_withdrawal(vault: &VaultState, shares: u64) -> Result<(u64, VaultState), VaultError> {
    let tokens = vault.quote_withdraw(shares)?;
    Ok((tokens, vault.settle(Settlement::Debit { tokens, shares })?))
}

#[test]
fn a_stored_vault_takes_153_bytes() {
    assert_eq!(VaultState::LEN, 153);
}

#[test]
fn the_default_vault_is_empty() {
    let vault = VaultState::default();
    assert_eq!(vault.admin.bytes, [0; 32]);
    assert_eq!(vault.token_mint.bytes, [0; 32]);
    assert_eq!(vault.vault_token_account.bytes, [0; 32]);
    assert_eq!(vault.share_mint.bytes, [0; 32]);
    assert_eq!((vault.total_tokens, vault.total_shares, vault.bump), (0, 0, 0));
}

#[test]
fn two_users_share_a_vault() {
    let vault = pool(0, 0);
    let (a, vault) = after_deposit(&vault, 100).unwrap();
    assert_eq!(a, 100);
    let (b, vault) = after_deposit(&vault, 50).unwrap();
    assert_eq!(b, 50);
    assert_eq!((vault.total_tokens, vault.total_shares), (150, 150));
    let (out, vault) = after_withdrawal(&vault, 50).unwrap();
    assert_eq!(out, 50);
    assert_eq!((vault.total_tokens, vault.total_shares), (100, 100));
    assert_eq!(a - 50, b);
}

#[test]
fn three_users_leave_an_empty_vault() {
    let mut vault = pool(0, 0);
    let mut held = Vec::new();
    for amount in [70u64, 1, 929] {
        let (shares, next) = after_deposit(&vault, amount).unwrap();
        held.push(shares);
        vault = next;
    }
    for shares in held {
        vault = after_withdrawal(&vault, shares).unwrap().1;
    }
    assert_eq!((vault.total_tokens, vault.total_shares), (0, 0));
}

#[test]
fn deposits_earn_shares_in_proportion() {
    assert_eq!(pool(150, 100).quote_deposit(10), Ok(6));
    assert_eq!(pool(100, 150).quote_deposit(10), Ok(15));
    assert_eq!(pool(1, u64::MAX).quote_deposit(1), Ok(u64::MAX));
    assert_eq!(pool(u64::MAX, u64::MAX).quote_deposit(u64::MAX), Ok(u64::MAX));
}

#[test]
fn a_pool_without_tokens_or_shares_deals_one_for_one() {
    assert_eq!(pool(0, 7).quote_deposit(5), Ok(5));
    assert_eq!(pool(7, 0).quote_deposit(5), Ok(5));
}

#[test]
fn deposits_are_refused() {
    assert_eq!(pool(150, 100).quote_deposit(0), Err(VaultError::ZeroAmount));
    assert_eq!(pool(150, 100).quote_deposit(1), Err(VaultError::SharesTooSmall));
    assert_eq!(pool(1, 2).quote_deposit(u64::MAX), Err(VaultError::MathOverflow));
}

#[test]
fn withdrawals_pay_in_proportion() {
    assert_eq!(pool(150, 100).quote_withdraw(3), Ok(4));
    assert_eq!(pool(100, 150).quote_withdraw(3), Ok(2));
    assert_eq!(pool(u64::MAX, u64::MAX).quote_withdraw(u64::MAX), Ok(u64::MAX));
}

#[test]
fn withdrawals_are_refused() {
    assert_eq!(pool(150, 100).quote_withdraw(0), Err(VaultError::ZeroAmount));
    assert_eq!(pool(0, 0).quote_withdraw(1), Err(VaultError::VaultEmpty));
    assert_eq!(pool(5, 0).quote_withdraw(1), Err(VaultError::VaultEmpty));
    assert_eq!(pool(0, 0).quote_withdraw(0), Err(VaultError::ZeroAmount));
    assert_eq!(pool(100, 150).quote_withdraw(1), Err(VaultError::WithdrawTooSmall));
    assert_eq!(pool(2, 1).quote_withdraw(u64::MAX), Err(VaultError::MathOverflow));
}

#[test]
fn the_books_stay_in_range() {
    let vault = pool(u64::MAX - 1, u64::MAX - 1);
    let credit = |tokens, shares| vault.settle(Settlement::Credit { tokens, shares });
    assert_eq!(credit(1, 1), Ok(pool(u64::MAX, u64::MAX)));
    assert_eq!(credit(2, 1), Err(VaultError::MathOverflow));
    assert_eq!(credit(1, 2), Err(VaultError::MathOverflow));
    let vault = pool(3, 4);
    let debit = |tokens, shares| vault.settle(Settlement::Debit { tokens, shares });
    assert_eq!(debit(3, 4), Ok(pool(0, 0)));
    assert_eq!(debit(4, 4), Err(VaultError::MathOverflow));
    assert_eq!(debit(3, 5), Err(VaultError::MathOverflow));
    assert_eq!(vault.settle(Settlement::Unchanged), Ok(vault));
}

#[test]
fn more_shares_than_there_are_cannot_be_withdrawn() {
    // Worth one token, as the rounding goes, but one share too many.
    assert_eq!(pool(1, 10).quote_withdraw(11), Ok(1));
    assert_eq!(after_withdrawal(&pool(1, 10), 11), Err(VaultError::MathOverflow));
}

#[test]
fn the_last_withdrawal_empties_the_vault() {
    let (tokens, vault) = after_withdrawal(&pool(17, 5), 5).unwrap();
    assert_eq!(tokens, 17);
    assert_eq!(vault, pool(0, 0));
}

#[test]
fn a_round_trip_never_gains() {
    let vault = pool(150, 100);
    let (shares, vault) = after_deposit(&vault, 10).unwrap();
    assert_eq!(shares, 6);
    let (tokens, vault) = after_withdrawal(&vault, shares).unwrap();
    assert_eq!(tokens, 9);
    // One token stays with the other shares.
    assert_eq!(vault, pool(151, 100));
    let (shares, vault) = after_deposit(&pool(0, 0), 10).unwrap();
    assert_eq!(after_withdrawal(&vault, shares).unwrap().0, 10);
}

#[test]
fn a_share_keeps_its_worth() {
    let before = pool(150, 100);
    let (_, after) = after_deposit(&before, 10).unwrap();
    assert_eq!(after, pool(160, 106));
    assert!(150 * 106 <= 160 * 100);
    let (_, after) = after_withdrawal(&before, 3).unwrap();
    assert_eq!(after, pool(146, 97));
    assert!(150 * 97 <= 146 * 100);
}

#[test]
fn larger_deposits_earn_no_less() {
    let vault = pool(150, 100);
    assert_eq!(vault.quote_deposit(10), Ok(6));
    assert_eq!(vault.quote_deposit(11), Ok(7));
}

#[test]
fn splitting_a_withdrawal_never_gains() {
    let vault = pool(11, 4);
    let (early, next) = after_withdrawal(&vault, 1).unwrap();
    let (late, _) = after_withdrawal(&next, 1).unwrap();
    assert_eq!((early, late), (2, 3));
    assert_eq!(vault.quote_withdraw(2), Ok(5));
}
