use crate::accounts::{
    at_found, at_known, check_found, check_known, demand, first_refusal, first_refusal_from,
    require, same, AccountRef, TokenAccount, VaultAccount,
};
use crate::cpi::{Approve, Call, Cpi, OpenPositionWithToken22Nft, Revoke, Run, Settlement};
use crate::error::{Error, Role, VaultError};
use crate::pda::bytes_of;
use crate::pubkey::Pubkey;
use vstd::prelude::*;

verus! {

/// The accounts of `open_raydium_position`.
#[derive(Clone, Copy, Debug, PartialEq, Eq)]
pub struct OpenRaydiumPosition {
    /// Who signs and pays; has to be the vault's admin.
    pub admin: AccountRef,
    /// Owns the position's NFT.
    pub vault_state: VaultAccount,
    /// Gives the vault's own token.
    pub vault_token_account: TokenAccount,
    /// Gives wSOL.
    pub vault_wsol_account: TokenAccount,
    pub wsol_mint: Pubkey,
    pub pool_state: AccountRef,
    pub position_nft_mint: AccountRef,
    pub position_nft_account: AccountRef,
    pub personal_position: AccountRef,
    pub tick_array_lower: AccountRef,
    pub tick_array_upper: AccountRef,
    pub token_vault_0: AccountRef,
    pub token_vault_1: AccountRef,
    pub vault_0_mint: Pubkey,
    pub vault_1_mint: Pubkey,
    pub clmm_program: Pubkey,
    pub rent: Pubkey,
    pub system_program: Pubkey,
    pub token_program: Pubkey,
    pub token_program_2022: Pubkey,
    pub associated_token_program: Pubkey,
}

/// Where the position lies and what it may cost.
#[derive(Clone, Copy, Debug, PartialEq, Eq)]
pub struct PositionTerms {
    pub tick_lower_index: i32,
    pub tick_upper_index: i32,
    pub tick_array_lower_start_index: i32,
    pub tick_array_upper_start_index: i32,
    pub liquidity: u128,
    pub amount_0_max: u64,
    pub amount_1_max: u64,
}

impl PositionTerms {
    /// The rules on the terms, in the order in which they are asked.
    pub open spec fn verdict(self) -> Result<(), VaultError> {
        if self.tick_lower_index >= self.tick_upper_index {
            Err(VaultError::InvalidTickRange)
        } else if self.liquidity == 0 {
            Err(VaultError::ZeroAmount)
        } else {
            Ok(())
        }
    }
}

impl OpenRaydiumPosition {
    /// The constraints on the accounts, in the order in which they are asked.
    /// `vault` and `vault_tokens` are where the vault and its token account
    /// have to be, `clmm` is the Raydium program.
    pub open spec fn verdict(
        self,
        vault: Option<Seq<u8>>,
        vault_tokens: Option<Seq<u8>>,
        clmm: Pubkey,
    ) -> Result<(), Error> {
        let vault_key = self.vault_state.key;
        first_refusal(
            seq![
                demand(self.admin.is_writable, Error::ConstraintMut(Role::Admin)),
                at_known(vault_key, vault, Role::VaultState),
                demand(self.vault_state.is_writable, Error::ConstraintMut(Role::VaultState)),
                self.vault_state.run_by(self.admin.key),
                at_found(self.vault_token_account.key, vault_tokens, Role::VaultTokenAccount),
                demand(
                    self.vault_token_account.is_writable,
                    Error::ConstraintMut(Role::VaultTokenAccount),
                ),
                self.vault_token_account.held(vault_key, self.vault_state.state.token_mint),
                demand(
                    self.vault_wsol_account.is_writable,
                    Error::ConstraintMut(Role::VaultWsolAccount),
                ),
                self.vault_wsol_account.held(vault_key, self.wsol_mint),
                demand(self.pool_state.is_writable, Error::ConstraintMut(Role::PoolState)),
                demand(
                    self.position_nft_mint.is_writable,
                    Error::ConstraintMut(Role::PositionNftMint),
                ),
                demand(
                    self.position_nft_account.is_writable,
                    Error::ConstraintMut(Role::PositionNftAccount),
                ),
                demand(
                    self.personal_position.is_writable,
                    Error::ConstraintMut(Role::PersonalPosition),
                ),
                demand(
                    self.tick_array_lower.is_writable,
                    Error::ConstraintMut(Role::TickArrayLower),
                ),
                demand(
                    self.tick_array_upper.is_writable,
                    Error::ConstraintMut(Role::TickArrayUpper),
                ),
                demand(self.token_vault_0.is_writable, Error::ConstraintMut(Role::TokenVault0)),
                demand(self.token_vault_1.is_writable, Error::ConstraintMut(Role::TokenVault1)),
                demand(self.clmm_program == clmm, Error::ConstraintAddress(Role::ClmmProgram)),
            ],
        )
    }

    /// Holds the accounts to their constraints.
    pub fn check(
        &self,
        vault: &Option<Pubkey>,
        vault_tokens: &Option<Pubkey>,
        clmm: &Pubkey,
    ) -> (verdict: Result<(), Error>)
        ensures
            verdict == self.verdict(bytes_of(*vault), bytes_of(*vault_tokens), *clmm),
    {
        proof {
            reveal_with_fuel(first_refusal_from, 19);
        }
        let vault_key = &self.vault_state.key;
        require(self.admin.is_writable, Error::ConstraintMut(Role::Admin))?;
        check_known(vault_key, vault, Role::VaultState)?;
        require(self.vault_state.is_writable, Error::ConstraintMut(Role::VaultState))?;
        self.vault_state.check_run_by(&self.admin.key)?;
        check_found(&self.vault_token_account.key, vault_tokens, Role::VaultTokenAccount)?;
        require(
            self.vault_token_account.is_writable,
            Error::ConstraintMut(Role::VaultTokenAccount),
        )?;
        self.vault_token_account.check_held(vault_key, &self.vault_state.state.token_mint)?;
        require(
            self.vault_wsol_account.is_writable,
            Error::ConstraintMut(Role::VaultWsolAccount),
        )?;
        self.vault_wsol_account.check_held(vault_key, &self.wsol_mint)?;
        require(self.pool_state.is_writable, Error::ConstraintMut(Role::PoolState))?;
        require(self.position_nft_mint.is_writable, Error::ConstraintMut(Role::PositionNftMint))?;
        require(
            self.position_nft_account.is_writable,
            Error::ConstraintMut(Role::PositionNftAccount),
        )?;
        require(self.personal_position.is_writable, Error::ConstraintMut(Role::PersonalPosition))?;
        require(self.tick_array_lower.is_writable, Error::ConstraintMut(Role::TickArrayLower))?;
        require(self.tick_array_upper.is_writable, Error::ConstraintMut(Role::TickArrayUpper))?;
        require(self.token_vault_0.is_writable, Error::ConstraintMut(Role::TokenVault0))?;
        require(self.token_vault_1.is_writable, Error::ConstraintMut(Role::TokenVault1))?;
        require(same(&self.clmm_program, clmm), Error::ConstraintAddress(Role::ClmmProgram))
    }

    /// The vault's own token is the pool's first one.
    pub open spec fn vault_token_first(self) -> bool {
        self.vault_0_mint == self.vault_state.state.token_mint
    }

    /// The most of the vault's own token that the position may take.
    pub open spec fn vault_token_max(self, terms: PositionTerms) -> u64 {
        if self.vault_token_first() {
            terms.amount_0_max
        } else {
            terms.amount_1_max
        }
    }

    /// The most wSOL that the position may take.
    pub open spec fn wsol_max(self, terms: PositionTerms) -> u64 {
        if self.vault_token_first() {
            terms.amount_1_max
        } else {
            terms.amount_0_max
        }
    }

    /// A call by which the vault lets the admin spend from `account`.
    pub open spec fn approve_call(self, account: Pubkey, amount: u64) -> Cpi {
        Cpi {
            program: self.token_program,
            call: Call::Approve(
                Approve {
                    to: account,
                    delegate: self.admin.key,
                    authority: self.vault_state.key,
                    amount,
                },
            ),
            signer: Some(self.vault_state.state.spec_signer()),
            forwards_remaining: false,
        }
    }

    /// A call by which the vault ends that right.
    pub open spec fn revoke_call(self, account: Pubkey) -> Cpi {
        Cpi {
            program: self.token_program,
            call: Call::Revoke(Revoke { source: account, authority: self.vault_state.key }),
            signer: Some(self.vault_state.state.spec_signer()),
            forwards_remaining: false,
        }
    }

    /// The call that opens the position. The admin pays, the vault owns it, and
    /// the second amount is the base.
    pub open spec fn open_call(self, terms: PositionTerms) -> Cpi {
        let (token_account_0, token_account_1) = if self.vault_token_first() {
            (self.vault_token_account.key, self.vault_wsol_account.key)
        } else {
            (self.vault_wsol_account.key, self.vault_token_account.key)
        };
        Cpi {
            program: self.clmm_program,
            call: Call::OpenPositionWithToken22Nft(
                OpenPositionWithToken22Nft {
                    payer: self.admin.key,
                    position_nft_owner: self.vault_state.key,
                    position_nft_mint: self.position_nft_mint.key,
                    position_nft_account: self.position_nft_account.key,
                    pool_state: self.pool_state.key,
                    protocol_position: self.personal_position.key,
                    tick_array_lower: self.tick_array_lower.key,
                    tick_array_upper: self.tick_array_upper.key,
                    personal_position: self.personal_position.key,
                    token_account_0,
                    token_account_1,
                    token_vault_0: self.token_vault_0.key,
                    token_vault_1: self.token_vault_1.key,
                    rent: self.rent,
                    system_program: self.system_program,
                    token_program: self.token_program,
                    associated_token_program: self.associated_token_program,
                    token_program_2022: self.token_program_2022,
                    vault_0_mint: self.vault_0_mint,
                    vault_1_mint: self.vault_1_mint,
                    tick_lower_index: terms.tick_lower_index,
                    tick_upper_index: terms.tick_upper_index,
                    tick_array_lower_start_index: terms.tick_array_lower_start_index,
                    tick_array_upper_start_index: terms.tick_array_upper_start_index,
                    liquidity: terms.liquidity,
                    amount_0_max: terms.amount_0_max,
                    amount_1_max: terms.amount_1_max,
                    with_metadata: true,
                    base_flag: Some(false),
                },
            ),
            signer: Some(self.vault_state.state.spec_signer()),
            forwards_remaining: true,
        }
    }

    /// The calls that open the position. Raydium takes the tokens in the name
    /// of the admin, who may spend from the vault's accounts meanwhile.
    pub open spec fn calls(self, terms: PositionTerms) -> Seq<Cpi> {
        seq![
            self.approve_call(self.vault_token_account.key, self.vault_token_max(terms)),
            self.approve_call(self.vault_wsol_account.key, self.wsol_max(terms)),
            self.open_call(terms),
            self.revoke_call(self.vault_token_account.key),
            self.revoke_call(self.vault_wsol_account.key),
        ]
    }

    fn approve(&self, account: Pubkey, amount: u64) -> (cpi: Cpi)
        ensures
            cpi == self.approve_call(account, amount),
    {
        Cpi {
            program: self.token_program,
            call: Call::Approve(
                Approve {
                    to: account,
                    delegate: self.admin.key,
                    authority: self.vault_state.key,
                    amount,
                },
            ),
            signer: Some(self.vault_state.state.signer()),
            forwards_remaining: false,
        }
    }

    fn revoke(&self, account: Pubkey) -> (cpi: Cpi)
        ensures
            cpi == self.revoke_call(account),
    {
        Cpi {
            program: self.token_program,
            call: Call::Revoke(Revoke { source: account, authority: self.vault_state.key }),
            signer: Some(self.vault_state.state.signer()),
            forwards_remaining: false,
        }
    }
}

/// Opens a position that the vault owns, paid from the vault's accounts.
pub fn handler(
    accounts: &OpenRaydiumPosition,
    tick_lower_index: i32,
    tick_upper_index: i32,
    tick_array_lower_start_index: i32,
    tick_array_upper_start_index: i32,
    liquidity: u128,
    amount_0_max: u64,
    amount_1_max: u64,
) -> (run: Result<Run, VaultError>)
    ensures
        ({
            let terms = PositionTerms {
                tick_lower_index,
                tick_upper_index,
                tick_array_lower_start_index,
                tick_array_upper_start_index,
                liquidity,
                amount_0_max,
                amount_1_max,
            };
            match terms.verdict() {
                Err(error) => run == Err::<Run, VaultError>(error),
                Ok(_) => run matches Ok(run) && run.fresh(
                    accounts.vault_state.state,
                    accounts.calls(terms),
                    Settlement::Unchanged,
                ),
            }
        }),
{
    if tick_lower_index >= tick_upper_index {
        return Err(VaultError::InvalidTickRange);
    }
    if liquidity == 0 {
        return Err(VaultError::ZeroAmount);
    }
    let vault = accounts.vault_state.state;
    let token_account = accounts.vault_token_account.key;
    let wsol_account = accounts.vault_wsol_account.key;
    let vault_token_first = same(&accounts.vault_0_mint, &vault.token_mint);
    let (token_account_0, token_account_1) = if vault_token_first {
        (token_account, wsol_account)
    } else {
        (wsol_account, token_account)
    };
    let (vault_token_max, wsol_max) = if vault_token_first {
        (amount_0_max, amount_1_max)
    } else {
        (amount_1_max, amount_0_max)
    };
    let open = Cpi {
        program: accounts.clmm_program,
        call: Call::OpenPositionWithToken22Nft(
            OpenPositionWithToken22Nft {
                payer: accounts.admin.key,
                position_nft_owner: accounts.vault_state.key,
                position_nft_mint: accounts.position_nft_mint.key,
                position_nft_account: accounts.position_nft_account.key,
                pool_state: accounts.pool_state.key,
                protocol_position: accounts.personal_position.key,
                tick_array_lower: accounts.tick_array_lower.key,
                tick_array_upper: accounts.tick_array_upper.key,
                personal_position: accounts.personal_position.key,
                token_account_0,
                token_account_1,
                token_vault_0: accounts.token_vault_0.key,
                token_vault_1: accounts.token_vault_1.key,
                rent: accounts.rent,
                system_program: accounts.system_program,
                token_program: accounts.token_program,
                associated_token_program: accounts.associated_token_program,
                token_program_2022: accounts.token_program_2022,
                vault_0_mint: accounts.vault_0_mint,
                vault_1_mint: accounts.vault_1_mint,
                tick_lower_index,
                tick_upper_index,
                tick_array_lower_start_index,
                tick_array_upper_start_index,
                liquidity,
                amount_0_max,
                amount_1_max,
                with_metadata: true,
                base_flag: Some(false),
            },
        ),
        signer: Some(vault.signer()),
        forwards_remaining: true,
    };
    let calls: Vec<Cpi> = vec![
        accounts.approve(token_account, vault_token_max),
        accounts.approve(wsol_account, wsol_max),
        open,
        accounts.revoke(token_account),
        accounts.revoke(wsol_account),
    ];
    proof {
        let terms = PositionTerms {
            tick_lower_index,
            tick_upper_index,
            tick_array_lower_start_index,
            tick_array_upper_start_index,
            liquidity,
            amount_0_max,
            amount_1_max,
        };
        assert(calls@ =~= accounts.calls(terms));
    }
    Ok(Run::new(vault, calls, Settlement::Unchanged))
}

} // verus!
