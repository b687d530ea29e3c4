use simple_vault::accounts::{AccountRef, PersonalPosition, TokenAccount, VaultAccount};
use simple_vault::cpi::{
    Action, Approve, Call, ClosePosition, Cpi, DecreaseLiquidityV2, Event,
    OpenPositionWithToken22Nft, Revoke, Run, VaultSigner,
};
use simple_vault::simple_vault::{close_raydium_position, open_raydium_position};
use simple_vault::{
    pda, CloseRaydiumPosition, Error, OpenRaydiumPosition, Pubkey, Role, VaultError, VaultState,
};

const fn key(n: u8) -> Pubkey {
    Pubkey { bytes: [n; 32] }
}

const PROGRAM: Pubkey = key(9);
const TOKEN_MINT: Pubkey = key(3);
const WSOL_MINT: Pubkey = key(4);
const ADMIN: Pubkey = key(1);
const WSOL_ACCOUNT: Pubkey = key(22);
const POOL: Pubkey = key(30);
const NFT_MINT: Pubkey = key(31);
const NFT_ACCOUNT: Pubkey = key(32);
const POSITION: Pubkey = key(33);
const TICKS_LOWER: Pubkey = key(34);
const TICKS_UPPER: Pubkey = key(35);
const POOL_VAULT_0: Pubkey = key(36);
const POOL_VAULT_1: Pubkey = key(37);
const CLMM: Pubkey = key(40);
const RENT: Pubkey = key(41);
const SYSTEM: Pubkey = key(42);
const TOKEN_PROGRAM: Pubkey = key(50);
const TOKEN_2022: Pubkey = key(51);
const ASSOCIATED: Pubkey = key(52);
const MEMO: Pubkey = key(53);

fn writable(key: Pubkey) -> AccountRef {
    AccountRef { key, is_writable: true }
}

fn holding(key: Pubkey, owner: Pubkey, mint: Pubkey) -> TokenAccount {
    TokenAccount { key, is_writable: true, mint, owner }
}

fn vault() -> VaultAccount {
    let (key, bump) = pda::find_vault(&TOKEN_MINT, &PROGRAM).unwrap();
    let state = VaultState {
        admin: ADMIN,
        token_mint: TOKEN_MINT,
        total_tokens: 150,
        total_shares: 150,
        bump,
        ..VaultState::default()
    };
    VaultAccount { key, is_writable: true, state }
}

fn vault_tokens() -> Pubkey {
    pda::find_vault_tokens(&TOKEN_MINT, &PROGRAM).unwrap()
}

fn signer() -> Option<VaultSigner> {
    Some(VaultSigner { token_mint: TOKEN_MINT, bump: vault().state.bump })
}

fn opening() -> OpenRaydiumPosition {
    OpenRaydiumPosition {
        admin: writable(ADMIN),
        vault_state: vault(),
        vault_token_account: holding(vault_tokens(), vault().key, TOKEN_MINT),
        vault_wsol_account: holding(WSOL_ACCOUNT, vault().key, WSOL_MINT),
        wsol_mint: WSOL_MINT,
        pool_state: writable(POOL),
        position_nft_mint: writable(NFT_MINT),
        position_nft_account: writable(NFT_ACCOUNT),
        personal_position: writable(POSITION),
        tick_array_lower: writable(TICKS_LOWER),
        tick_array_upper: writable(TICKS_UPPER),
        token_vault_0: writable(POOL_VAULT_0),
        token_vault_1: writable(POOL_VAULT_1),
        vault_0_mint: TOKEN_MINT,
        vault_1_mint: WSOL_MINT,
        clmm_program: CLMM,
        rent: RENT,
        system_program: SYSTEM,
        token_program: TOKEN_PROGRAM,
        token_program_2022: TOKEN_2022,
        associated_token_program: ASSOCIATED,
    }
}

fn closing(liquidity: u128) -> CloseRaydiumPosition {
    CloseRaydiumPosition {
        admin: writable(ADMIN),
        vault_state: vault(),
        vault_token_account: holding(vault_tokens(), vault().key, TOKEN_MINT),
        vault_wsol_account: holding(WSOL_ACCOUNT, vault().key, WSOL_MINT),
        wsol_mint: WSOL_MINT,
        pool_state: writable(POOL),
        position_nft_mint: writable(NFT_MINT),
        position_nft_account: holding(NFT_ACCOUNT, vault().key, NFT_MINT),
        personal_position: PersonalPosition {
            key: POSITION,
            is_writable: true,
            pool_id: POOL,
            liquidity,
        },
        token_vault_0: writable(POOL_VAULT_0),
        token_vault_1: writable(POOL_VAULT_1),
        tick_array_lower: writable(TICKS_LOWER),
        tick_array_upper: writable(TICKS_UPPER),
        vault_0_mint: TOKEN_MINT,
        vault_1_mint: WSOL_MINT,
        clmm_program: CLMM,
        token_program: TOKEN_PROGRAM,
        token_program_2022: TOKEN_2022,
        memo_program: MEMO,
        system_program: SYSTEM,
    }
}

fn open(accounts: &OpenRaydiumPosition) -> Result<Run, Error> {
    open_raydium_position(&PROGRAM, &CLMM, accounts, -60, 60, -120, 0, 1000, 11, 22)
}

fn close(accounts: &CloseRaydiumPosition) -> Result<Run, Error> {
    close_raydium_position(&PROGRAM, &CLMM, accounts, 5, 6)
}

fn finish(mut run: Run) -> (Vec<Cpi>, Action) {
    let mut calls = Vec::new();
    loop {
        match run.step(Event::Proceed) {
            Action::Invoke(cpi) => calls.push(cpi),
            last => return (calls, last),
        }
    }
}

fn approve(account: Pubkey, amount: u64) -> Cpi {
    Cpi {
        program: TOKEN_PROGRAM,
        call: Call::Approve(Approve {
            to: account,
            delegate: ADMIN,
            authority: vault().key,
            amount,
        }),
        signer: signer(),
        forwards_remaining: false,
    }
}

fn revoke(account: Pubkey) -> Cpi {
    Cpi {
        program: TOKEN_PROGRAM,
        call: Call::Revoke(Revoke { source: account, authority: vault().key }),
        signer: signer(),
        forwards_remaining: false,
    }
}

fn open_call(token_account_0: Pubkey, token_account_1: Pubkey, mints: (Pubkey, Pubkey)) -> Cpi {
    Cpi {
        program: CLMM,
        call: Call::OpenPositionWithToken22Nft(OpenPositionWithToken22Nft {
            payer: ADMIN,
            position_nft_owner: vault().key,
            position_nft_mint: NFT_MINT,
            position_nft_account: NFT_ACCOUNT,
            pool_state: POOL,
            protocol_position: POSITION,
            tick_array_lower: TICKS_LOWER,
            tick_array_upper: TICKS_UPPER,
            personal_position: POSITION,
            token_account_0,
            token_account_1,
            token_vault_0: POOL_VAULT_0,
            token_vault_1: POOL_VAULT_1,
            rent: RENT,
            system_program: SYSTEM,
            token_program: TOKEN_PROGRAM,
            associated_token_program: ASSOCIATED,
            token_program_2022: TOKEN_2022,
            vault_0_mint: mints.0,
            vault_1_mint: mints.1,
            tick_lower_index: -60,
            tick_upper_index: 60,
            tick_array_lower_start_index: -120,
            tick_array_upper_start_index: 0,
            liquidity: 1000,
            amount_0_max: 11,
            amount_1_max: 22,
            with_metadata: true,
            base_flag: Some(false),
        }),
        signer: signer(),
        forwards_remaining: true,
    }
}

#[test]
fn a_position_is_opened_with_the_vault_token_first() {
    let (calls, last) = finish(open(&opening()).unwrap());
    assert_eq!(
        calls,
        vec![
            approve(vault_tokens(), 11),
            approve(WSOL_ACCOUNT, 22),
            open_call(vault_tokens(), WSOL_ACCOUNT, (TOKEN_MINT, WSOL_MINT)),
            revoke(vault_tokens()),
            revoke(WSOL_ACCOUNT),
        ]
    );
    assert_eq!(last, Action::Commit(vault().state));
}

#[test]
fn a_position_is_opened_with_the_vault_token_second() {
    let mut accounts = opening();
    accounts.vault_0_mint = WSOL_MINT;
    accounts.vault_1_mint = TOKEN_MINT;
    let (calls, last) = finish(open(&accounts).unwrap());
    assert_eq!(
        calls,
        vec![
            approve(vault_tokens(), 22),
            approve(WSOL_ACCOUNT, 11),
            open_call(WSOL_ACCOUNT, vault_tokens(), (WSOL_MINT, TOKEN_MINT)),
            revoke(vault_tokens()),
            revoke(WSOL_ACCOUNT),
        ]
    );
    assert_eq!(last, Action::Commit(vault().state));
}

#[test]
fn the_terms_of_a_position_are_checked() {
    let refused = |lower, upper, liquidity| {
        open_raydium_position(&PROGRAM, &CLMM, &opening(), lower, upper, 0, 0, liquidity, 1, 1)
            .unwrap_err()
    };
    assert_eq!(refused(5, 5, 1), Error::Vault(VaultError::InvalidTickRange));
    assert_eq!(refused(6, 5, 0), Error::Vault(VaultError::InvalidTickRange));
    assert_eq!(refused(4, 5, 0), Error::Vault(VaultError::ZeroAmount));
}

#[test]
fn only_the_admin_opens_and_closes() {
    let mut accounts = opening();
    accounts.admin.key = key(77);
    assert_eq!(open(&accounts).unwrap_err(), Error::Vault(VaultError::Unauthorized));
    let mut accounts = closing(1);
    accounts.admin.key = key(77);
    assert_eq!(close(&accounts).unwrap_err(), Error::Vault(VaultError::Unauthorized));
}

#[test]
fn the_accounts_of_an_opening_are_checked_in_order() {
    let mut accounts = opening();
    accounts.clmm_program = key(77);
    assert_eq!(open(&accounts).unwrap_err(), Error::ConstraintAddress(Role::ClmmProgram));
    accounts.token_vault_1.is_writable = false;
    assert_eq!(open(&accounts).unwrap_err(), Error::ConstraintMut(Role::TokenVault1));
    accounts.token_vault_0.is_writable = false;
    assert_eq!(open(&accounts).unwrap_err(), Error::ConstraintMut(Role::TokenVault0));
    accounts.tick_array_upper.is_writable = false;
    assert_eq!(open(&accounts).unwrap_err(), Error::ConstraintMut(Role::TickArrayUpper));
    accounts.tick_array_lower.is_writable = false;
    assert_eq!(open(&accounts).unwrap_err(), Error::ConstraintMut(Role::TickArrayLower));
    accounts.personal_position.is_writable = false;
    assert_eq!(open(&accounts).unwrap_err(), Error::ConstraintMut(Role::PersonalPosition));
    accounts.position_nft_account.is_writable = false;
    assert_eq!(open(&accounts).unwrap_err(), Error::ConstraintMut(Role::PositionNftAccount));
    accounts.position_nft_mint.is_writable = false;
    assert_eq!(open(&accounts).unwrap_err(), Error::ConstraintMut(Role::PositionNftMint));
    accounts.pool_state.is_writable = false;
    assert_eq!(open(&accounts).unwrap_err(), Error::ConstraintMut(Role::PoolState));
    accounts.vault_wsol_account.mint = TOKEN_MINT;
    assert_eq!(open(&accounts).unwrap_err(), Error::ConstraintTokenMint);
    accounts.vault_wsol_account.owner = ADMIN;
    assert_eq!(open(&accounts).unwrap_err(), Error::ConstraintTokenOwner);
    accounts.vault_wsol_account.is_writable = false;
    assert_eq!(open(&accounts).unwrap_err(), Error::ConstraintMut(Role::VaultWsolAccount));
    accounts.vault_token_account.owner = ADMIN;
    assert_eq!(open(&accounts).unwrap_err(), Error::ConstraintTokenOwner);
    accounts.vault_token_account.key = ADMIN;
    assert_eq!(open(&accounts).unwrap_err(), Error::ConstraintSeeds(Role::VaultTokenAccount));
    accounts.vault_state.state.admin = key(77);
    assert_eq!(open(&accounts).unwrap_err(), Error::Vault(VaultError::Unauthorized));
    accounts.vault_state.is_writable = false;
    assert_eq!(open(&accounts).unwrap_err(), Error::ConstraintMut(Role::VaultState));
    accounts.vault_state.key = key(77);
    assert_eq!(open(&accounts).unwrap_err(), Error::ConstraintSeeds(Role::VaultState));
    accounts.admin.is_writable = false;
    assert_eq!(open(&accounts).unwrap_err(), Error::ConstraintMut(Role::Admin));
}

#[test]
fn the_accounts_of_a_closing_are_checked_in_order() {
    let mut accounts = closing(1);
    accounts.clmm_program = key(77);
    assert_eq!(close(&accounts).unwrap_err(), Error::ConstraintAddress(Role::ClmmProgram));
    accounts.tick_array_upper.is_writable = false;
    assert_eq!(close(&accounts).unwrap_err(), Error::ConstraintMut(Role::TickArrayUpper));
    accounts.tick_array_lower.is_writable = false;
    assert_eq!(close(&accounts).unwrap_err(), Error::ConstraintMut(Role::TickArrayLower));
    accounts.token_vault_1.is_writable = false;
    assert_eq!(close(&accounts).unwrap_err(), Error::ConstraintMut(Role::TokenVault1));
    accounts.token_vault_0.is_writable = false;
    assert_eq!(close(&accounts).unwrap_err(), Error::ConstraintMut(Role::TokenVault0));
    accounts.personal_position.pool_id = key(77);
    assert_eq!(close(&accounts).unwrap_err(), Error::ConstraintRaw(Role::PersonalPosition));
    accounts.personal_position.is_writable = false;
    assert_eq!(close(&accounts).unwrap_err(), Error::ConstraintMut(Role::PersonalPosition));
    accounts.position_nft_account.mint = TOKEN_MINT;
    assert_eq!(close(&accounts).unwrap_err(), Error::ConstraintTokenMint);
    accounts.position_nft_account.owner = ADMIN;
    assert_eq!(close(&accounts).unwrap_err(), Error::ConstraintTokenOwner);
    accounts.position_nft_account.is_writable = false;
    assert_eq!(close(&accounts).unwrap_err(), Error::ConstraintMut(Role::PositionNftAccount));
    accounts.position_nft_mint.is_writable = false;
    assert_eq!(close(&accounts).unwrap_err(), Error::ConstraintMut(Role::PositionNftMint));
    accounts.pool_state.is_writable = false;
    assert_eq!(close(&accounts).unwrap_err(), Error::ConstraintMut(Role::PoolState));
    accounts.vault_wsol_account.is_writable = false;
    assert_eq!(close(&accounts).unwrap_err(), Error::ConstraintMut(Role::VaultWsolAccount));
    accounts.vault_token_account.mint = WSOL_MINT;
    assert_eq!(close(&accounts).unwrap_err(), Error::ConstraintTokenMint);
    accounts.vault_token_account.is_writable = false;
    assert_eq!(close(&accounts).unwrap_err(), Error::ConstraintMut(Role::VaultTokenAccount));
    accounts.vault_state.state.bump = 0;
    assert_eq!(close(&accounts).unwrap_err(), Error::ConstraintSeeds(Role::VaultState));
    accounts.admin.is_writable = false;
    assert_eq!(close(&accounts).unwrap_err(), Error::ConstraintMut(Role::Admin));
}

fn decrease(recipients: (Pubkey, Pubkey), mints: (Pubkey, Pubkey)) -> Cpi {
    Cpi {
        program: CLMM,
        call: Call::DecreaseLiquidityV2(DecreaseLiquidityV2 {
            nft_owner: vault().key,
            nft_account: NFT_ACCOUNT,
            personal_position: POSITION,
            pool_state: POOL,
            protocol_position: POSITION,
            token_vault_0: POOL_VAULT_0,
            token_vault_1: POOL_VAULT_1,
            tick_array_lower: TICKS_LOWER,
            tick_array_upper: TICKS_UPPER,
            recipient_token_account_0: recipients.0,
            recipient_token_account_1: recipients.1,
            token_program: TOKEN_PROGRAM,
            token_program_2022: TOKEN_2022,
            memo_program: MEMO,
            vault_0_mint: mints.0,
            vault_1_mint: mints.1,
            liquidity: 777,
            amount_0_min: 5,
            amount_1_min: 6,
        }),
        signer: signer(),
        forwards_remaining: true,
    }
}

fn close_call() -> Cpi {
    Cpi {
        program: CLMM,
        call: Call::ClosePosition(ClosePosition {
            nft_owner: vault().key,
            position_nft_mint: NFT_MINT,
            position_nft_account: NFT_ACCOUNT,
            personal_position: POSITION,
            system_program: SYSTEM,
            token_program: TOKEN_2022,
        }),
        signer: signer(),
        forwards_remaining: false,
    }
}

#[test]
fn a_position_is_closed_into_the_vault() {
    let (calls, last) = finish(close(&closing(777)).unwrap());
    let into = (vault_tokens(), WSOL_ACCOUNT);
    assert_eq!(calls, vec![decrease(into, (TOKEN_MINT, WSOL_MINT)), close_call()]);
    assert_eq!(last, Action::Commit(vault().state));

    let mut accounts = closing(777);
    accounts.vault_0_mint = WSOL_MINT;
    accounts.vault_1_mint = TOKEN_MINT;
    let (calls, _) = finish(close(&accounts).unwrap());
    let into = (WSOL_ACCOUNT, vault_tokens());
    assert_eq!(calls, vec![decrease(into, (WSOL_MINT, TOKEN_MINT)), close_call()]);
}

#[test]
fn an_empty_position_is_only_closed() {
    let (calls, last) = finish(close(&closing(0)).unwrap());
    assert_eq!(calls, vec![close_call()]);
    assert_eq!(last, Action::Commit(vault().state));
}
