use std::collections::HashMap;

use simple_vault::accounts::{AccountRef, Mint, TokenAccount, VaultAccount};
use simple_vault::contexts::Derived;
use simple_vault::cpi::{
    Action, Burn, Call, Cpi, Event, MintTo, Run, Transfer, VaultSigner,
};
use simple_vault::simple_vault::{deposit, initialize_vault, withdraw};
use simple_vault::{
    pda, Deposit, Error, InitializeVault, Pubkey, Role, VaultError, VaultState, Withdraw,
};

const PROGRAM: Pubkey = Pubkey { bytes: [9; 32] };
const TOKEN_MINT: Pubkey = Pubkey { bytes: [3; 32] };
const ADMIN: Pubkey = Pubkey { bytes: [1; 32] };
const USER: Pubkey = Pubkey { bytes: [2; 32] };
const USER_TOKENS: Pubkey = Pubkey { bytes: [20; 32] };
const USER_SHARES: Pubkey = Pubkey { bytes: [21; 32] };
const TOKEN_PROGRAM: Pubkey = Pubkey { bytes: [50; 32] };

fn writable(key: Pubkey) -> AccountRef {
    AccountRef { key, is_writable: true }
}

fn opening() -> InitializeVault {
    InitializeVault {
        vault_state: writable(pda::find_vault(&TOKEN_MINT, &PROGRAM).unwrap().0),
        vault_token_account: writable(pda::find_vault_tokens(&TOKEN_MINT, &PROGRAM).unwrap()),
        share_mint: writable(pda::find_share_mint(&TOKEN_MINT, &PROGRAM).unwrap()),
        token_mint: TOKEN_MINT,
        admin: writable(ADMIN),
    }
}

fn holding(key: Pubkey, owner: Pubkey, mint: Pubkey) -> TokenAccount {
    TokenAccount { key, is_writable: true, mint, owner }
}

fn deposit_into(vault: VaultState) -> Deposit {
    let made = opening();
    Deposit {
        vault_state: VaultAccount { key: made.vault_state.key, is_writable: true, state: vault },
        vault_token_account: holding(
            made.vault_token_account.key,
            made.vault_state.key,
            TOKEN_MINT,
        ),
        share_mint: Mint {
            key: made.share_mint.key,
            is_writable: true,
            mint_authority: Some(made.vault_state.key),
        },
        user_token_account: holding(USER_TOKENS, USER, TOKEN_MINT),
        user_share_account: holding(USER_SHARES, USER, made.share_mint.key),
        user: writable(USER),
        token_program: TOKEN_PROGRAM,
    }
}

fn withdraw_from(vault: VaultState) -> Withdraw {
    let d = deposit_into(vault);
    Withdraw {
        vault_state: d.vault_state,
        vault_token_account: d.vault_token_account,
        share_mint: d.share_mint,
        user_token_account: d.user_token_account,
        user_share_account: d.user_share_account,
        user: d.user,
        token_program: d.token_program,
    }
}

fn opened() -> VaultState {
    initialize_vault(&PROGRAM, &opening()).unwrap().state
}

fn with_totals(total_tokens: u64, total_shares: u64) -> VaultState {
    VaultState { total_tokens, total_shares, ..opened() }
}

fn finish(mut run: Run) -> (Vec<Cpi>, Action) {
    let mut calls = Vec::new();
    loop {
        match run.step(Event::Proceed) {
            Action::Invoke(cpi) => calls.push(cpi),
            last => return (calls, last),
        }
    }
}

#[test]
fn a_new_vault_is_empty() {
    let vault = opened();
    assert_eq!(vault.admin, ADMIN);
    assert_eq!(vault.token_mint, TOKEN_MINT);
    assert_eq!(vault.vault_token_account, opening().vault_token_account.key);
    assert_eq!(vault.share_mint, opening().share_mint.key);
    assert_eq!((vault.total_tokens, vault.total_shares), (0, 0));
    assert_eq!(vault.bump, pda::find_vault(&TOKEN_MINT, &PROGRAM).unwrap().1);
}

#[test]
fn the_accounts_of_a_new_vault_belong_to_it() {
    let made = initialize_vault(&PROGRAM, &opening()).unwrap().made;
    let accounts = deposit_into(opened());
    assert_eq!(made.payer, ADMIN);
    assert_eq!(made.vault_space, VaultState::LEN);
    assert_eq!(made.vault_token_account, accounts.vault_token_account);
    assert_eq!(made.share_mint, accounts.share_mint);
    assert_eq!(made.share_decimals, 6);
    assert_eq!(made.share_freeze_authority, None);
}

#[test]
fn a_vault_is_opened_only_where_its_seeds_lead() {
    let refused = |accounts: InitializeVault| initialize_vault(&PROGRAM, &accounts).unwrap_err();
    let mut accounts = opening();
    accounts.admin.is_writable = false;
    assert_eq!(refused(accounts), Error::ConstraintMut(Role::Admin));
    accounts.share_mint.is_writable = false;
    assert_eq!(refused(accounts), Error::ConstraintMut(Role::ShareMint));
    accounts.share_mint.key = USER;
    assert_eq!(refused(accounts), Error::ConstraintSeeds(Role::ShareMint));
    accounts.vault_token_account.is_writable = false;
    assert_eq!(refused(accounts), Error::ConstraintMut(Role::VaultTokenAccount));
    accounts.vault_token_account.key = USER;
    assert_eq!(refused(accounts), Error::ConstraintSeeds(Role::VaultTokenAccount));
    accounts.vault_state.is_writable = false;
    assert_eq!(refused(accounts), Error::ConstraintMut(Role::VaultState));
    accounts.vault_state.key = USER;
    assert_eq!(refused(accounts), Error::ConstraintSeeds(Role::VaultState));
}

#[test]
fn nobody_pays_for_a_vault_from_the_account_to_be_made() {
    let refused = |accounts: InitializeVault| initialize_vault(&PROGRAM, &accounts).unwrap_err();
    for key in [
        opening().vault_state.key,
        opening().vault_token_account.key,
        opening().share_mint.key,
    ] {
        let mut accounts = opening();
        accounts.admin.key = key;
        assert_eq!(refused(accounts), Error::TryingToInitPayerAsProgramAccount);
    }
    // The payer is asked about after the seeds of an account and before
    // whether it is writable.
    let mut accounts = opening();
    accounts.admin.key = accounts.share_mint.key;
    accounts.share_mint.is_writable = false;
    assert_eq!(refused(accounts), Error::TryingToInitPayerAsProgramAccount);
    accounts.vault_token_account.is_writable = false;
    assert_eq!(refused(accounts), Error::ConstraintMut(Role::VaultTokenAccount));
    accounts.admin.key = accounts.vault_state.key;
    accounts.vault_state.is_writable = false;
    assert_eq!(refused(accounts), Error::TryingToInitPayerAsProgramAccount);
    accounts.vault_state.key = USER;
    assert_eq!(refused(accounts), Error::ConstraintSeeds(Role::VaultState));
}

#[test]
fn the_admin_of_a_new_vault_only_pays() {
    let made = initialize_vault(&PROGRAM, &opening()).unwrap().made;
    assert_ne!(made.vault_token_account.owner, ADMIN);
    assert_ne!(made.share_mint.mint_authority, Some(ADMIN));
    assert_eq!(made.share_freeze_authority, None);
}

/// Opens a vault where the system program makes no account that is in use.
fn open_on(vaults: &mut HashMap<[u8; 32], VaultState>, accounts: &InitializeVault) -> bool {
    match initialize_vault(&PROGRAM, accounts) {
        Ok(new) if !vaults.contains_key(&accounts.vault_state.key.bytes) => {
            vaults.insert(accounts.vault_state.key.bytes, new.state);
            true
        }
        _ => false,
    }
}

#[test]
fn a_vault_is_opened_once() {
    let mut vaults = HashMap::new();
    assert!(open_on(&mut vaults, &opening()));
    let (_, last) = finish(deposit(&PROGRAM, &deposit_into(opened()), 100).unwrap());
    assert_eq!(last, Action::Commit(with_totals(100, 100)));
    vaults.insert(opening().vault_state.key.bytes, with_totals(100, 100));

    // Neither the same admin nor another one opens it again.
    assert!(!open_on(&mut vaults, &opening()));
    let mut accounts = opening();
    accounts.admin = writable(USER);
    assert!(!open_on(&mut vaults, &accounts));
    assert_eq!(vaults.len(), 1);
    assert_eq!(vaults[&opening().vault_state.key.bytes], with_totals(100, 100));
    assert_eq!(with_totals(100, 100).admin, ADMIN);

    // A vault for another mint is another vault.
    let mint = Pubkey { bytes: [4; 32] };
    let other = InitializeVault {
        vault_state: writable(pda::find_vault(&mint, &PROGRAM).unwrap().0),
        vault_token_account: writable(pda::find_vault_tokens(&mint, &PROGRAM).unwrap()),
        share_mint: writable(pda::find_share_mint(&mint, &PROGRAM).unwrap()),
        token_mint: mint,
        admin: writable(ADMIN),
    };
    assert!(open_on(&mut vaults, &other));
    assert_eq!(vaults.len(), 2);
}

#[test]
fn a_mint_has_one_vault() {
    // Other accounts than those of the first opening are refused.
    let mint = Pubkey { bytes: [4; 32] };
    let mut accounts = opening();
    accounts.admin = writable(USER);
    assert!(initialize_vault(&PROGRAM, &accounts).is_ok());
    accounts.share_mint.key = pda::find_share_mint(&mint, &PROGRAM).unwrap();
    assert_eq!(
        initialize_vault(&PROGRAM, &accounts).unwrap_err(),
        Error::ConstraintSeeds(Role::ShareMint)
    );
    accounts.vault_token_account.key = pda::find_vault_tokens(&mint, &PROGRAM).unwrap();
    assert_eq!(
        initialize_vault(&PROGRAM, &accounts).unwrap_err(),
        Error::ConstraintSeeds(Role::VaultTokenAccount)
    );
    accounts.vault_state.key = pda::find_vault(&mint, &PROGRAM).unwrap().0;
    assert_eq!(
        initialize_vault(&PROGRAM, &accounts).unwrap_err(),
        Error::ConstraintSeeds(Role::VaultState)
    );
}

#[test]
fn an_address_that_cannot_be_found_is_reported() {
    let accounts = opening();
    let nothing = Derived { vault_state: None, vault_token_account: None, share_mint: None };
    assert_eq!(accounts.check(&nothing), Err(Error::NoViableBump(Role::VaultState)));
    let accounts = deposit_into(opened());
    assert_eq!(accounts.check(&nothing), Err(Error::ConstraintSeeds(Role::VaultState)));
    let derived = Derived { vault_state: Some(accounts.vault_state.key), ..nothing };
    assert_eq!(accounts.check(&derived), Err(Error::NoViableBump(Role::VaultTokenAccount)));
}

#[test]
fn a_new_vault_takes_a_deposit() {
    let accounts = deposit_into(opened());
    let run = deposit(&PROGRAM, &accounts, 100).unwrap();
    let (calls, last) = finish(run);
    assert_eq!(
        calls,
        vec![
            Cpi {
                program: TOKEN_PROGRAM,
                call: Call::Transfer(Transfer {
                    from: USER_TOKENS,
                    to: accounts.vault_token_account.key,
                    authority: USER,
                    amount: 100,
                }),
                signer: None,
                forwards_remaining: false,
            },
            Cpi {
                program: TOKEN_PROGRAM,
                call: Call::MintTo(MintTo {
                    mint: accounts.share_mint.key,
                    to: USER_SHARES,
                    authority: accounts.vault_state.key,
                    amount: 100,
                }),
                signer: Some(VaultSigner { token_mint: TOKEN_MINT, bump: opened().bump }),
                forwards_remaining: false,
            },
        ]
    );
    assert_eq!(last, Action::Commit(with_totals(100, 100)));
}

#[test]
fn a_withdrawal_burns_and_pays() {
    let accounts = withdraw_from(with_totals(300, 150));
    let (calls, last) = finish(withdraw(&PROGRAM, &accounts, 50).unwrap());
    assert_eq!(
        calls,
        vec![
            Cpi {
                program: TOKEN_PROGRAM,
                call: Call::Burn(Burn {
                    mint: accounts.share_mint.key,
                    from: USER_SHARES,
                    authority: USER,
                    amount: 50,
                }),
                signer: None,
                forwards_remaining: false,
            },
            Cpi {
                program: TOKEN_PROGRAM,
                call: Call::Transfer(Transfer {
                    from: accounts.vault_token_account.key,
                    to: USER_TOKENS,
                    authority: accounts.vault_state.key,
                    amount: 100,
                }),
                signer: Some(VaultSigner { token_mint: TOKEN_MINT, bump: opened().bump }),
                forwards_remaining: false,
            },
        ]
    );
    assert_eq!(last, Action::Commit(with_totals(200, 100)));
}

#[test]
fn the_signing_seeds_lead_to_the_vault() {
    let accounts = deposit_into(opened());
    let (calls, _) = finish(deposit(&PROGRAM, &accounts, 1).unwrap());
    let signer = calls[1].signer.unwrap();
    assert_eq!(
        pda::vault_address(&signer.token_mint, signer.bump, &PROGRAM),
        Some(accounts.vault_state.key)
    );
}

#[test]
fn deposits_and_withdrawals_are_refused_by_the_rules() {
    let refused = |vault, amount| deposit(&PROGRAM, &deposit_into(vault), amount).unwrap_err();
    assert_eq!(refused(opened(), 0), Error::Vault(VaultError::ZeroAmount));
    assert_eq!(refused(with_totals(150, 100), 1), Error::Vault(VaultError::SharesTooSmall));
    assert_eq!(refused(with_totals(1, 2), u64::MAX), Error::Vault(VaultError::MathOverflow));
    let refused = |vault, shares| withdraw(&PROGRAM, &withdraw_from(vault), shares).unwrap_err();
    assert_eq!(refused(opened(), 0), Error::Vault(VaultError::ZeroAmount));
    assert_eq!(refused(opened(), 1), Error::Vault(VaultError::VaultEmpty));
    assert_eq!(refused(with_totals(100, 150), 1), Error::Vault(VaultError::WithdrawTooSmall));
    assert_eq!(refused(with_totals(2, 1), u64::MAX), Error::Vault(VaultError::MathOverflow));
}

#[test]
fn full_books_are_noticed_after_the_calls() {
    let accounts = deposit_into(with_totals(u64::MAX, u64::MAX));
    let (calls, last) = finish(deposit(&PROGRAM, &accounts, 1).unwrap());
    assert_eq!(calls.len(), 2);
    assert_eq!(last, Action::Refuse(VaultError::MathOverflow));
    let accounts = withdraw_from(with_totals(1, 10));
    let (calls, last) = finish(withdraw(&PROGRAM, &accounts, 11).unwrap());
    assert_eq!(calls.len(), 2);
    assert_eq!(last, Action::Refuse(VaultError::MathOverflow));
}

#[test]
fn a_failed_call_ends_the_instruction() {
    let mut run = deposit(&PROGRAM, &deposit_into(opened()), 5).unwrap();
    assert!(matches!(run.step(Event::Proceed), Action::Invoke(_)));
    assert_eq!(run.step(Event::CallFailed), Action::Abort);
    assert_eq!(run.step(Event::Proceed), Action::Abort);
}

#[test]
fn the_accounts_of_a_deposit_are_checked_in_order() {
    let refused = |accounts: Deposit| deposit(&PROGRAM, &accounts, 1).unwrap_err();
    let mut accounts = deposit_into(opened());
    accounts.user.is_writable = false;
    assert_eq!(refused(accounts), Error::ConstraintMut(Role::User));
    accounts.user_share_account.mint = TOKEN_MINT;
    assert_eq!(refused(accounts), Error::ConstraintTokenMint);
    accounts.user_share_account.owner = ADMIN;
    assert_eq!(refused(accounts), Error::ConstraintTokenOwner);
    accounts.user_share_account.is_writable = false;
    assert_eq!(refused(accounts), Error::ConstraintMut(Role::UserShareAccount));
    accounts.user_token_account.mint = accounts.share_mint.key;
    assert_eq!(refused(accounts), Error::ConstraintTokenMint);
    accounts.user_token_account.owner = ADMIN;
    assert_eq!(refused(accounts), Error::ConstraintTokenOwner);
    accounts.user_token_account.is_writable = false;
    assert_eq!(refused(accounts), Error::ConstraintMut(Role::UserTokenAccount));
    accounts.share_mint.mint_authority = None;
    assert_eq!(refused(accounts), Error::ConstraintMintMintAuthority);
    accounts.share_mint.mint_authority = Some(USER);
    assert_eq!(refused(accounts), Error::ConstraintMintMintAuthority);
    accounts.share_mint.is_writable = false;
    assert_eq!(refused(accounts), Error::ConstraintMut(Role::ShareMint));
    accounts.share_mint.key = USER;
    assert_eq!(refused(accounts), Error::ConstraintSeeds(Role::ShareMint));
    accounts.vault_token_account.mint = USER;
    assert_eq!(refused(accounts), Error::ConstraintTokenMint);
    accounts.vault_token_account.owner = USER;
    assert_eq!(refused(accounts), Error::ConstraintTokenOwner);
    accounts.vault_token_account.is_writable = false;
    assert_eq!(refused(accounts), Error::ConstraintMut(Role::VaultTokenAccount));
    accounts.vault_token_account.key = USER;
    assert_eq!(refused(accounts), Error::ConstraintSeeds(Role::VaultTokenAccount));
    accounts.vault_state.is_writable = false;
    assert_eq!(refused(accounts), Error::ConstraintMut(Role::VaultState));
    accounts.vault_state.key = USER;
    assert_eq!(refused(accounts), Error::ConstraintSeeds(Role::VaultState));
}

#[test]
fn the_accounts_of_a_withdrawal_are_checked() {
    let vault = with_totals(10, 10);
    let mut accounts = withdraw_from(vault);
    assert!(withdraw(&PROGRAM, &accounts, 1).is_ok());
    accounts.user_share_account.owner = ADMIN;
    assert_eq!(
        withdraw(&PROGRAM, &accounts, 1).unwrap_err(),
        Error::ConstraintTokenOwner
    );
    accounts.vault_state.state.token_mint = USER;
    assert_eq!(
        withdraw(&PROGRAM, &accounts, 1).unwrap_err(),
        Error::ConstraintSeeds(Role::VaultState)
    );
}

#[test]
fn accounts_have_the_names_that_clients_know() {
    assert_eq!(Role::VaultState.name(), "vault_state");
    assert_eq!(Role::TokenVault0.name(), "token_vault_0");
    assert_eq!(Role::UserShareAccount.name(), "user_share_account");
}

/// Balances by account and, for the share mint, its supply.
fn perform(ledger: &mut HashMap<[u8; 32], i64>, calls: &[Cpi]) {
    let mut put = |key: Pubkey, amount: i64| *ledger.entry(key.bytes).or_insert(0) += amount;
    for cpi in calls {
        match cpi.call {
            Call::Transfer(t) => {
                put(t.from, -(t.amount as i64));
                put(t.to, t.amount as i64);
            }
            Call::MintTo(m) => {
                put(m.to, m.amount as i64);
                put(m.mint, m.amount as i64);
            }
            Call::Burn(b) => {
                put(b.from, -(b.amount as i64));
                put(b.mint, -(b.amount as i64));
            }
            _ => panic!("no such call here"),
        }
    }
}

#[test]
fn the_books_agree_with_the_balances() {
    let mut ledger = HashMap::new();
    let made = opening();
    let mut vault = opened();
    let mut agree = |vault: &mut VaultState, run: Run| {
        let (calls, last) = finish(run);
        perform(&mut ledger, &calls);
        match last {
            Action::Commit(next) => *vault = next,
            other => panic!("{:?}", other),
        }
        assert_eq!(ledger[&made.vault_token_account.key.bytes], vault.total_tokens as i64);
        assert_eq!(ledger[&made.share_mint.key.bytes], vault.total_shares as i64);
        assert_eq!(ledger[&USER_TOKENS.bytes], -(vault.total_tokens as i64));
        assert_eq!(ledger[&USER_SHARES.bytes], vault.total_shares as i64);
    };
    let run = deposit(&PROGRAM, &deposit_into(vault), 100).unwrap();
    agree(&mut vault, run);
    let run = deposit(&PROGRAM, &deposit_into(vault), 50).unwrap();
    agree(&mut vault, run);
    let run = withdraw(&PROGRAM, &withdraw_from(vault), 50).unwrap();
    agree(&mut vault, run);
    assert_eq!((vault.total_tokens, vault.total_shares), (100, 100));
}

#[test]
fn every_share_of_a_new_vault_is_backed_by_a_token() {
    let mut vault = opened();
    for n in [7u64, 100, 3, 41, 1, 60, 50, 13, 200, 2] {
        let result = if n % 2 == 1 {
            deposit(&PROGRAM, &deposit_into(vault), n)
        } else {
            withdraw(&PROGRAM, &withdraw_from(vault), n)
        };
        if let Ok(run) = result {
            if let (_, Action::Commit(next)) = finish(run) {
                vault = next;
            }
        }
        assert_eq!(vault.total_tokens, vault.total_shares);
        assert_eq!(vault.quote_deposit(9), Ok(9));
        assert_eq!(vault, with_totals(vault.total_tokens, vault.total_shares));
    }
}

#[test]
fn depositors_can_withdraw() {
    let derived = simple_vault::contexts::derive_addresses(&opened(), &PROGRAM);
    assert_eq!(deposit_into(opened()).check(&derived), Ok(()));
    assert_eq!(withdraw_from(with_totals(8, 5)).check(&derived), Ok(()));
}
