//! The entry points of the program.
//!
//! Each takes the address of the program, the accounts and the arguments of an
//! instruction, and either refuses or says what is to be done.

use crate::accounts::{Mint, TokenAccount};
use crate::contexts::{
    derive_addresses, derived_for, Deposit, Derived, DerivedBytes, InitializeVault, MadeAccounts,
    NewVault, Withdraw, SHARE_DECIMALS,
};
use crate::cpi::{Burn, Call, Cpi, MintTo, Run, Settlement, Transfer};
use crate::error::{Error, VaultError};
use crate::instructions::open_position::PositionTerms;
use crate::instructions::{close_position, open_position, CloseRaydiumPosition, OpenRaydiumPosition};
use crate::pda::{
    address_in, created_address, find_share_mint, find_vault, find_vault_tokens,
    found_address, highest, vault_address, SHARE_MINT_SEED, VAULT_SEED, VAULT_TOKENS_SEED,
};
use crate::pubkey::Pubkey;
use crate::state::VaultState;
use vstd::prelude::*;

verus! {

impl VaultState {
    /// The vault is stored at `key`: its mint and its bump lead there.
    pub open spec fn stored_at(self, key: Pubkey, program: Pubkey) -> bool {
        created_address(VAULT_SEED@, self.token_mint@, self.bump, program@) == Some(key@)
    }
}

impl InitializeVault {
    /// The new vault: empty, and run by whoever signed.
    pub open spec fn opened(self, bump: u8) -> VaultState {
        VaultState {
            admin: self.admin.key,
            token_mint: self.token_mint,
            vault_token_account: self.vault_token_account.key,
            share_mint: self.share_mint.key,
            total_tokens: 0,
            total_shares: 0,
            bump,
        }
    }

    /// Where the accounts of the new vault have to be.
    pub open spec fn derived(self, program: Pubkey) -> DerivedBytes {
        DerivedBytes {
            vault_state: address_in(found_address(VAULT_SEED@, self.token_mint@, program@)),
            vault_token_account: address_in(
                found_address(VAULT_TOKENS_SEED@, self.token_mint@, program@),
            ),
            share_mint: address_in(found_address(SHARE_MINT_SEED@, self.token_mint@, program@)),
        }
    }

    /// The accounts that come with the new vault, paid for by the admin: one
    /// that holds its token and belongs to it, and a mint that only it issues
    /// from and nobody can freeze.
    pub open spec fn made(self) -> MadeAccounts {
        MadeAccounts {
            payer: self.admin.key,
            vault_space: VaultState::LEN,
            vault_token_account: TokenAccount {
                key: self.vault_token_account.key,
                is_writable: true,
                mint: self.token_mint,
                owner: self.vault_state.key,
            },
            share_mint: Mint {
                key: self.share_mint.key,
                is_writable: true,
                mint_authority: Some(self.vault_state.key),
            },
            share_decimals: SHARE_DECIMALS,
            share_freeze_authority: None,
        }
    }

    /// The opening goes through where the addresses `in_use` are, provided that
    /// the admin can pay: nothing is refused, and each of the three accounts, made
    /// one after the other, is at an address that is free.
    pub open spec fn goes_through(self, program: Pubkey, in_use: Set<Pubkey>) -> bool {
        &&& self.verdict(self.derived(program)) is Ok
        &&& !in_use.contains(self.vault_state.key)
        &&& !in_use.insert(self.vault_state.key).contains(self.vault_token_account.key)
        &&& !in_use.insert(self.vault_state.key).insert(self.vault_token_account.key).contains(
            self.share_mint.key,
        )
    }

    /// Writes down the new vault and how its accounts are made.
    pub fn open(&self, bump: u8) -> (new: NewVault)
        ensures
            new.state == self.opened(bump),
            new.made == self.made(),
    {
        let state = VaultState {
            admin: self.admin.key,
            token_mint: self.token_mint,
            vault_token_account: self.vault_token_account.key,
            share_mint: self.share_mint.key,
            total_tokens: 0,
            total_shares: 0,
            bump,
        };
        let made = MadeAccounts {
            payer: self.admin.key,
            vault_space: VaultState::LEN,
            vault_token_account: TokenAccount {
                key: self.vault_token_account.key,
                is_writable: true,
                mint: self.token_mint,
                owner: self.vault_state.key,
            },
            share_mint: Mint {
                key: self.share_mint.key,
                is_writable: true,
                mint_authority: Some(self.vault_state.key),
            },
            share_decimals: SHARE_DECIMALS,
            share_freeze_authority: None,
        };
        NewVault { state, made }
    }
}

/// Opens a vault for an SPL token: its state, its token account and the mint of
/// its shares. The admin pays for all three and is none of them.
pub fn initialize_vault(program: &Pubkey, accounts: &InitializeVault) -> (new: Result<
    NewVault,
    Error,
>)
    ensures
        match accounts.verdict(accounts.derived(*program)) {
            Err(error) => new == Err::<NewVault, Error>(error),
            Ok(_) => {
                &&& found_address(VAULT_SEED@, accounts.token_mint@, program@) matches Some(found)
                &&& new matches Ok(new)
                &&& new.state == accounts.opened(found.1)
                &&& new.made == accounts.made()
                &&& new.state.stored_at(accounts.vault_state.key, *program)
                &&& highest(VAULT_SEED@, accounts.token_mint@, found.1, program@)
                &&& found.1 >= 1
                &&& new.made.payer == accounts.admin.key
                &&& accounts.admin.key != accounts.vault_state.key
                &&& accounts.admin.key != accounts.vault_token_account.key
                &&& accounts.admin.key != accounts.share_mint.key
            },
        },
        new is Ok <==> accounts.verdict(accounts.derived(*program)) is Ok,
        new matches Ok(new) ==> {
            &&& new.state.total_tokens == 0
            &&& new.state.total_shares == 0
            &&& new.state.admin == accounts.admin.key
            &&& new.state.token_mint == accounts.token_mint
            &&& new.state.vault_token_account == accounts.vault_token_account.key
            &&& new.state.share_mint == accounts.share_mint.key
            &&& created_address(VAULT_SEED@, accounts.token_mint@, new.state.bump, program@)
                == Some(accounts.vault_state.key@)
        },
{
    let (vault_state, bump) = match find_vault(&accounts.token_mint, program) {
        Some((key, bump)) => (Some(key), bump),
        None => (None, 0),
    };
    let derived = Derived {
        vault_state,
        vault_token_account: find_vault_tokens(&accounts.token_mint, program),
        share_mint: find_share_mint(&accounts.token_mint, program),
    };
    accounts.check(&derived)?;
    proof {
        reveal_with_fuel(crate::accounts::first_refusal_from, 11);
    }
    Ok(accounts.open(bump))
}

impl Deposit {
    /// The calls of a deposit: the user's tokens go into the vault, the vault
    /// issues shares to the user.
    pub open spec fn calls(self, amount: u64, shares: u64) -> Seq<Cpi> {
        seq![
            Cpi {
                program: self.token_program,
                call: Call::Transfer(
                    Transfer {
                        from: self.user_token_account.key,
                        to: self.vault_token_account.key,
                        authority: self.user.key,
                        amount,
                    },
                ),
                signer: None,
                forwards_remaining: false,
            },
            Cpi {
                program: self.token_program,
                call: Call::MintTo(
                    MintTo {
                        mint: self.share_mint.key,
                        to: self.user_share_account.key,
                        authority: self.vault_state.key,
                        amount: shares,
                    },
                ),
                signer: Some(self.vault_state.state.spec_signer()),
                forwards_remaining: false,
            },
        ]
    }

    /// What a deposit of `amount` tokens comes to, on accounts that are in order.
    pub open spec fn planned(self, amount: u64, run: Result<Run, Error>) -> bool {
        match self.vault_state.state.deposit_quote(amount) {
            Err(error) => run == Err::<Run, Error>(Error::Vault(error)),
            Ok(shares) => run matches Ok(run) && run.fresh(
                self.vault_state.state,
                self.calls(amount, shares),
                Settlement::Credit { tokens: amount, shares },
            ),
        }
    }

    /// Decides on a deposit of `amount` tokens, on accounts that are in order.
    pub fn plan(&self, amount: u64) -> (run: Result<Run, Error>)
        ensures
            self.planned(amount, run),
    {
        let vault = self.vault_state.state;
        let shares = match vault.quote_deposit(amount) {
            Ok(shares) => shares,
            Err(error) => return Err(Error::Vault(error)),
        };
        let calls: Vec<Cpi> = vec![
            Cpi {
                program: self.token_program,
                call: Call::Transfer(
                    Transfer {
                        from: self.user_token_account.key,
                        to: self.vault_token_account.key,
                        authority: self.user.key,
                        amount,
                    },
                ),
                signer: None,
                forwards_remaining: false,
            },
            Cpi {
                program: self.token_program,
                call: Call::MintTo(
                    MintTo {
                        mint: self.share_mint.key,
                        to: self.user_share_account.key,
                        authority: self.vault_state.key,
                        amount: shares,
                    },
                ),
                signer: Some(vault.signer()),
                forwards_remaining: false,
            },
        ];
        assert(calls@ =~= self.calls(amount, shares));
        Ok(Run::new(vault, calls, Settlement::Credit { tokens: amount, shares }))
    }
}

/// A user brings `amount` tokens and gets shares for them.
pub fn deposit(program: &Pubkey, accounts: &Deposit, amount: u64) -> (run: Result<Run, Error>)
    ensures
        match accounts.verdict(derived_for(accounts.vault_state.state, *program)) {
            Err(error) => run == Err::<Run, Error>(error),
            Ok(_) => accounts.planned(amount, run),
        },
        ({
            let vault = accounts.vault_state.state;
            let in_order = accounts.verdict(derived_for(vault, *program)) is Ok;
            let shares = if vault.total_tokens == 0 || vault.total_shares == 0 {
                amount as int
            } else {
                amount * vault.total_shares / vault.total_tokens as int
            };
            &&& run is Ok <==> in_order && amount > 0 && 1 <= shares <= u64::MAX
            &&& run matches Ok(run) ==> {
                &&& run.calls().len() == 2
                &&& run.calls()[0].call matches Call::Transfer(paid)
                &&& paid.from == accounts.user_token_account.key
                &&& paid.to == accounts.vault_token_account.key
                &&& paid.authority == accounts.user.key
                &&& paid.amount == amount
                &&& run.calls()[1].call matches Call::MintTo(issued)
                &&& issued.mint == accounts.share_mint.key
                &&& issued.to == accounts.user_share_account.key
                &&& issued.authority == accounts.vault_state.key
                &&& issued.amount == shares
                &&& run.vault() == vault && run.done() == 0 && !run.failed()
                &&& match run.vault().settled(run.settlement()) {
                    Ok(next) => {
                        &&& next.total_tokens == vault.total_tokens + amount
                        &&& next.total_shares == vault.total_shares + shares
                    },
                    Err(_) => vault.total_tokens + amount > u64::MAX || vault.total_shares + shares
                        > u64::MAX,
                }
            }
        }),
{
    let derived = derive_addresses(&accounts.vault_state.state, program);
    accounts.check(&derived)?;
    accounts.plan(amount)
}

impl Withdraw {
    /// The calls of a withdrawal: the user's shares are burned, the vault pays
    /// the user.
    pub open spec fn calls(self, shares: u64, tokens: u64) -> Seq<Cpi> {
        seq![
            Cpi {
                program: self.token_program,
                call: Call::Burn(
                    Burn {
                        mint: self.share_mint.key,
                        from: self.user_share_account.key,
                        authority: self.user.key,
                        amount: shares,
                    },
                ),
                signer: None,
                forwards_remaining: false,
            },
            Cpi {
                program: self.token_program,
                call: Call::Transfer(
                    Transfer {
                        from: self.vault_token_account.key,
                        to: self.user_token_account.key,
                        authority: self.vault_state.key,
                        amount: tokens,
                    },
                ),
                signer: Some(self.vault_state.state.spec_signer()),
                forwards_remaining: false,
            },
        ]
    }

    /// What a withdrawal of `shares` shares comes to, on accounts that are in order.
    pub open spec fn planned(self, shares: u64, run: Result<Run, Error>) -> bool {
        match self.vault_state.state.withdraw_quote(shares) {
            Err(error) => run == Err::<Run, Error>(Error::Vault(error)),
            Ok(tokens) => run matches Ok(run) && run.fresh(
                self.vault_state.state,
                self.calls(shares, tokens),
                Settlement::Debit { tokens, shares },
            ),
        }
    }

    /// Decides on a withdrawal of `shares` shares, on accounts that are in order.
    pub fn plan(&self, shares: u64) -> (run: Result<Run, Error>)
        ensures
            self.planned(shares, run),
    {
        let vault = self.vault_state.state;
        let tokens = match vault.quote_withdraw(shares) {
            Ok(tokens) => tokens,
            Err(error) => return Err(Error::Vault(error)),
        };
        let calls: Vec<Cpi> = vec![
            Cpi {
                program: self.token_program,
                call: Call::Burn(
                    Burn {
                        mint: self.share_mint.key,
                        from: self.user_share_account.key,
                        authority: self.user.key,
                        amount: shares,
                    },
                ),
                signer: None,
                forwards_remaining: false,
            },
            Cpi {
                program: self.token_program,
                call: Call::Transfer(
                    Transfer {
                        from: self.vault_token_account.key,
                        to: self.user_token_account.key,
                        authority: self.vault_state.key,
                        amount: tokens,
                    },
                ),
                signer: Some(vault.signer()),
                forwards_remaining: false,
            },
        ];
        assert(calls@ =~= self.calls(shares, tokens));
        Ok(Run::new(vault, calls, Settlement::Debit { tokens, shares }))
    }
}

/// A user burns `shares_amount` shares and gets tokens for them.
pub fn withdraw(program: &Pubkey, accounts: &Withdraw, shares_amount: u64) -> (run: Result<
    Run,
    Error,
>)
    ensures
        match accounts.verdict(derived_for(accounts.vault_state.state, *program)) {
            Err(error) => run == Err::<Run, Error>(error),
            Ok(_) => accounts.planned(shares_amount, run),
        },
        ({
            let vault = accounts.vault_state.state;
            let in_order = accounts.verdict(derived_for(vault, *program)) is Ok;
            let tokens = shares_amount * vault.total_tokens / vault.total_shares as int;
            &&& run is Ok <==> in_order && shares_amount > 0 && vault.total_shares > 0 && 1 <= tokens
                <= u64::MAX
            &&& run matches Ok(run) ==> {
                &&& run.calls().len() == 2
                &&& run.calls()[0].call matches Call::Burn(burned)
                &&& burned.mint == accounts.share_mint.key
                &&& burned.from == accounts.user_share_account.key
                &&& burned.authority == accounts.user.key
                &&& burned.amount == shares_amount
                &&& run.calls()[1].call matches Call::Transfer(paid)
                &&& paid.from == accounts.vault_token_account.key
                &&& paid.to == accounts.user_token_account.key
                &&& paid.authority == accounts.vault_state.key
                &&& paid.amount == tokens
                &&& run.vault() == vault && run.done() == 0 && !run.failed()
                &&& match run.vault().settled(run.settlement()) {
                    Ok(next) => {
                        &&& next.total_tokens == vault.total_tokens - tokens
                        &&& next.total_shares == vault.total_shares - shares_amount
                    },
                    Err(_) => vault.total_tokens < tokens || vault.total_shares < shares_amount,
                }
            }
        }),
{
    let derived = derive_addresses(&accounts.vault_state.state, program);
    accounts.check(&derived)?;
    accounts.plan(shares_amount)
}

/// The admin closes a position in a Raydium pool and gets its liquidity back
/// into the vault. `clmm` is the address of the Raydium program.
pub fn close_raydium_position(
    program: &Pubkey,
    clmm: &Pubkey,
    accounts: &CloseRaydiumPosition,
    amount_0_min: u64,
    amount_1_min: u64,
) -> (run: Result<Run, Error>)
    ensures
        ({
            let vault = accounts.vault_state.state;
            let derived = derived_for(vault, *program);
            match accounts.verdict(derived.vault_state, derived.vault_token_account, *clmm) {
                Err(error) => run == Err::<Run, Error>(error),
                Ok(_) => run matches Ok(run) && run.fresh(
                    vault,
                    accounts.calls(amount_0_min, amount_1_min),
                    Settlement::Unchanged,
                ),
            }
        }),
        ({
            let derived = derived_for(accounts.vault_state.state, *program);
            run is Ok <==> accounts.verdict(derived.vault_state, derived.vault_token_account, *clmm)
                is Ok
        }),
        run matches Ok(run) ==> {
            let liquidity = accounts.personal_position.liquidity;
            &&& run.vault() == accounts.vault_state.state && run.done() == 0 && !run.failed()
            &&& run.vault().settled(run.settlement()) == Ok::<VaultState, VaultError>(
                accounts.vault_state.state,
            )
            &&& run.calls() == accounts.calls(amount_0_min, amount_1_min)
            &&& run.calls().len() == (if liquidity > 0 {
                2nat
            } else {
                1nat
            })
            &&& liquidity > 0 ==> (run.calls()[0].call matches Call::DecreaseLiquidityV2(out) && {
                &&& out.liquidity == liquidity
                &&& out.amount_0_min == amount_0_min
                &&& out.amount_1_min == amount_1_min
            })
            &&& run.calls().last().call is ClosePosition
        },
{
    let vault = &accounts.vault_state.state;
    let vault_state = vault_address(&vault.token_mint, vault.bump, program);
    let vault_tokens = find_vault_tokens(&vault.token_mint, program);
    accounts.check(&vault_state, &vault_tokens, clmm)?;
    Ok(close_position::handler(accounts, amount_0_min, amount_1_min))
}

/// The admin opens a position in a Raydium pool with the vault's tokens. `clmm`
/// is the address of the Raydium program.
pub fn open_raydium_position(
    program: &Pubkey,
    clmm: &Pubkey,
    accounts: &OpenRaydiumPosition,
    tick_lower_index: i32,
    tick_upper_index: i32,
    tick_array_lower_start_index: i32,
    tick_array_upper_start_index: i32,
    liquidity: u128,
    amount_0_max: u64,
    amount_1_max: u64,
) -> (run: Result<Run, Error>)
    ensures
        ({
            let vault = accounts.vault_state.state;
            let derived = derived_for(vault, *program);
            let terms = PositionTerms {
                tick_lower_index,
                tick_upper_index,
                tick_array_lower_start_index,
                tick_array_upper_start_index,
                liquidity,
                amount_0_max,
                amount_1_max,
            };
            match accounts.verdict(derived.vault_state, derived.vault_token_account, *clmm) {
                Err(error) => run == Err::<Run, Error>(error),
                Ok(_) => match terms.verdict() {
                    Err(error) => run == Err::<Run, Error>(Error::Vault(error)),
                    Ok(_) => run matches Ok(run) && run.fresh(
                        vault,
                        accounts.calls(terms),
                        Settlement::Unchanged,
                    ),
                },
            }
        }),
        ({
            let derived = derived_for(accounts.vault_state.state, *program);
            run is Ok <==> accounts.verdict(derived.vault_state, derived.vault_token_account, *clmm)
                is Ok && tick_lower_index < tick_upper_index && liquidity > 0
        }),
        run matches Ok(run) ==> {
            &&& run.vault() == accounts.vault_state.state && run.done() == 0 && !run.failed()
            &&& run.vault().settled(run.settlement()) == Ok::<VaultState, VaultError>(
                accounts.vault_state.state,
            )
            &&& run.calls().len() == 5
            &&& run.calls()[2].call matches Call::OpenPositionWithToken22Nft(open)
            &&& open.tick_lower_index == tick_lower_index
            &&& open.tick_upper_index == tick_upper_index
            &&& open.tick_array_lower_start_index == tick_array_lower_start_index
            &&& open.tick_array_upper_start_index == tick_array_upper_start_index
            &&& open.liquidity == liquidity
            &&& open.amount_0_max == amount_0_max
            &&& open.amount_1_max == amount_1_max
        },
{
    let vault = &accounts.vault_state.state;
    let vault_state = vault_address(&vault.token_mint, vault.bump, program);
    let vault_tokens = find_vault_tokens(&vault.token_mint, program);
    accounts.check(&vault_state, &vault_tokens, clmm)?;
    match open_position::handler(
        accounts,
        tick_lower_index,
        tick_upper_index,
        tick_array_lower_start_index,
        tick_array_upper_start_index,
        liquidity,
        amount_0_max,
        amount_1_max,
    ) {
        Ok(run) => Ok(run),
        Err(error) => Err(Error::Vault(error)),
    }
}

} // verus!
