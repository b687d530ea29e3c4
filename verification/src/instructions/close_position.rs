use crate::accounts::{
    at_found, at_known, check_found, check_known, demand, first_refusal, first_refusal_from,
    require, same, AccountRef, PersonalPosition, TokenAccount, VaultAccount,
};
use crate::cpi::{Call, ClosePosition, Cpi, DecreaseLiquidityV2, Run, Settlement};
use crate::error::{Error, Role};
use crate::pda::bytes_of;
use crate::pubkey::Pubkey;
use vstd::prelude::*;

verus! {

/// The accounts of `close_raydium_position`.
#[derive(Clone, Copy, Debug, PartialEq, Eq)]
pub struct CloseRaydiumPosition {
    /// Who signs; has to be the vault's admin.
    pub admin: AccountRef,
    pub vault_state: VaultAccount,
    /// Gets the vault's own token back.
    pub vault_token_account: TokenAccount,
    /// Gets wSOL back.
    pub vault_wsol_account: TokenAccount,
    pub wsol_mint: Pubkey,
    pub pool_state: AccountRef,
    pub position_nft_mint: AccountRef,
    pub position_nft_account: TokenAccount,
    pub personal_position: PersonalPosition,
    pub token_vault_0: AccountRef,
    pub token_vault_1: AccountRef,
    pub tick_array_lower: AccountRef,
    pub tick_array_upper: AccountRef,
    pub vault_0_mint: Pubkey,
    pub vault_1_mint: Pubkey,
    pub clmm_program: Pubkey,
    pub token_program: Pubkey,
    pub token_program_2022: Pubkey,
    pub memo_program: Pubkey,
    pub system_program: Pubkey,
}

impl CloseRaydiumPosition {
    /// The constraints on the accounts, in the order in which they are asked.
    /// `vault` and `vault_tokens` are where the vault and its token account
    /// have to be, `clmm` is the Raydium program.
    pub open spec fn verdict(
        self,
        vault: Option<Seq<u8>>,
        vault_tokens: Option<Seq<u8>>,
        clmm: Pubkey,
    ) -> Result<(), Error> {
        let vault_key = self.vault_state.key;
        first_refusal(
            seq![
                demand(self.admin.is_writable, Error::ConstraintMut(Role::Admin)),
                at_known(vault_key, vault, Role::VaultState),
                demand(self.vault_state.is_writable, Error::ConstraintMut(Role::VaultState)),
                self.vault_state.run_by(self.admin.key),
                at_found(self.vault_token_account.key, vault_tokens, Role::VaultTokenAccount),
                demand(
                    self.vault_token_account.is_writable,
                    Error::ConstraintMut(Role::VaultTokenAccount),
                ),
                self.vault_token_account.held(vault_key, self.vault_state.state.token_mint),
                demand(
                    self.vault_wsol_account.is_writable,
                    Error::ConstraintMut(Role::VaultWsolAccount),
                ),
                self.vault_wsol_account.held(vault_key, self.wsol_mint),
                demand(self.pool_state.is_writable, Error::ConstraintMut(Role::PoolState)),
                demand(
                    self.position_nft_mint.is_writable,
                    Error::ConstraintMut(Role::PositionNftMint),
                ),
                demand(
                    self.position_nft_account.is_writable,
                    Error::ConstraintMut(Role::PositionNftAccount),
                ),
                self.position_nft_account.held(vault_key, self.position_nft_mint.key),
                demand(
                    self.personal_position.is_writable,
                    Error::ConstraintMut(Role::PersonalPosition),
                ),
                demand(
                    self.personal_position.pool_id == self.pool_state.key,
                    Error::ConstraintRaw(Role::PersonalPosition),
                ),
                demand(self.token_vault_0.is_writable, Error::ConstraintMut(Role::TokenVault0)),
                demand(self.token_vault_1.is_writable, Error::ConstraintMut(Role::TokenVault1)),
                demand(
                    self.tick_array_lower.is_writable,
                    Error::ConstraintMut(Role::TickArrayLower),
                ),
                demand(
                    self.tick_array_upper.is_writable,
                    Error::ConstraintMut(Role::TickArrayUpper),
                ),
                demand(self.clmm_program == clmm, Error::ConstraintAddress(Role::ClmmProgram)),
            ],
        )
    }

    /// Holds the accounts to their constraints.
    pub fn check(
        &self,
        vault: &Option<Pubkey>,
        vault_tokens: &Option<Pubkey>,
        clmm: &Pubkey,
    ) -> (verdict: Result<(), Error>)
        ensures
            verdict == self.verdict(bytes_of(*vault), bytes_of(*vault_tokens), *clmm),
    {
        proof {
            reveal_with_fuel(first_refusal_from, 21);
        }
        let vault_key = &self.vault_state.key;
        require(self.admin.is_writable, Error::ConstraintMut(Role::Admin))?;
        check_known(vault_key, vault, Role::VaultState)?;
        require(self.vault_state.is_writable, Error::ConstraintMut(Role::VaultState))?;
        self.vault_state.check_run_by(&self.admin.key)?;
        check_found(&self.vault_token_account.key, vault_tokens, Role::VaultTokenAccount)?;
        require(
            self.vault_token_account.is_writable,
            Error::ConstraintMut(Role::VaultTokenAccount),
        )?;
        self.vault_token_account.check_held(vault_key, &self.vault_state.state.token_mint)?;
        require(
            self.vault_wsol_account.is_writable,
            Error::ConstraintMut(Role::VaultWsolAccount),
        )?;
        self.vault_wsol_account.check_held(vault_key, &self.wsol_mint)?;
        require(self.pool_state.is_writable, Error::ConstraintMut(Role::PoolState))?;
        require(self.position_nft_mint.is_writable, Error::ConstraintMut(Role::PositionNftMint))?;
        require(
            self.position_nft_account.is_writable,
            Error::ConstraintMut(Role::PositionNftAccount),
        )?;
        self.position_nft_account.check_held(vault_key, &self.position_nft_mint.key)?;
        require(self.personal_position.is_writable, Error::ConstraintMut(Role::PersonalPosition))?;
        require(
            same(&self.personal_position.pool_id, &self.pool_state.key),
            Error::ConstraintRaw(Role::PersonalPosition),
        )?;
        require(self.token_vault_0.is_writable, Error::ConstraintMut(Role::TokenVault0))?;
        require(self.token_vault_1.is_writable, Error::ConstraintMut(Role::TokenVault1))?;
        require(self.tick_array_lower.is_writable, Error::ConstraintMut(Role::TickArrayLower))?;
        require(self.tick_array_upper.is_writable, Error::ConstraintMut(Role::TickArrayUpper))?;
        require(same(&self.clmm_program, clmm), Error::ConstraintAddress(Role::ClmmProgram))
    }

    /// The vault's own token is the pool's first one.
    pub open spec fn vault_token_first(self) -> bool {
        self.vault_0_mint == self.vault_state.state.token_mint
    }

    /// The call that takes all the liquidity out of the position, into the
    /// vault's two accounts.
    pub open spec fn decrease_call(self, amount_0_min: u64, amount_1_min: u64) -> Cpi {
        let (recipient_0, recipient_1) = if self.vault_token_first() {
            (self.vault_token_account.key, self.vault_wsol_account.key)
        } else {
            (self.vault_wsol_account.key, self.vault_token_account.key)
        };
        Cpi {
            program: self.clmm_program,
            call: Call::DecreaseLiquidityV2(
                DecreaseLiquidityV2 {
                    nft_owner: self.vault_state.key,
                    nft_account: self.position_nft_account.key,
                    personal_position: self.personal_position.key,
                    pool_state: self.pool_state.key,
                    protocol_position: self.personal_position.key,
                    token_vault_0: self.token_vault_0.key,
                    token_vault_1: self.token_vault_1.key,
                    tick_array_lower: self.tick_array_lower.key,
                    tick_array_upper: self.tick_array_upper.key,
                    recipient_token_account_0: recipient_0,
                    recipient_token_account_1: recipient_1,
                    token_program: self.token_program,
                    token_program_2022: self.token_program_2022,
                    memo_program: self.memo_program,
                    vault_0_mint: self.vault_0_mint,
                    vault_1_mint: self.vault_1_mint,
                    liquidity: self.personal_position.liquidity,
                    amount_0_min,
                    amount_1_min,
                },
            ),
            signer: Some(self.vault_state.state.spec_signer()),
            forwards_remaining: true,
        }
    }

    /// The call that closes the position and burns its NFT.
    pub open spec fn close_call(self) -> Cpi {
        Cpi {
            program: self.clmm_program,
            call: Call::ClosePosition(
                ClosePosition {
                    nft_owner: self.vault_state.key,
                    position_nft_mint: self.position_nft_mint.key,
                    position_nft_account: self.position_nft_account.key,
                    personal_position: self.personal_position.key,
                    system_program: self.system_program,
                    token_program: self.token_program_2022,
                },
            ),
            signer: Some(self.vault_state.state.spec_signer()),
            forwards_remaining: false,
        }
    }

    /// The calls that close the position: an empty one has no liquidity to take out.
    pub open spec fn calls(self, amount_0_min: u64, amount_1_min: u64) -> Seq<Cpi> {
        if self.personal_position.liquidity > 0 {
            seq![self.decrease_call(amount_0_min, amount_1_min), self.close_call()]
        } else {
            seq![self.close_call()]
        }
    }
}

/// Closes a position: takes its liquidity back into the vault, if there is any,
/// and burns its NFT.
pub fn handler(accounts: &CloseRaydiumPosition, amount_0_min: u64, amount_1_min: u64) -> (run: Run)
    ensures
        run.fresh(
            accounts.vault_state.state,
            accounts.calls(amount_0_min, amount_1_min),
            Settlement::Unchanged,
        ),
{
    let vault = accounts.vault_state.state;
    let signer = Some(vault.signer());
    let liquidity = accounts.personal_position.liquidity;
    let (recipient_0, recipient_1) = if same(&accounts.vault_0_mint, &vault.token_mint) {
        (accounts.vault_token_account.key, accounts.vault_wsol_account.key)
    } else {
        (accounts.vault_wsol_account.key, accounts.vault_token_account.key)
    };
    let mut calls: Vec<Cpi> = Vec::new();
    if liquidity > 0 {
        calls.push(
            Cpi {
                program: accounts.clmm_program,
                call: Call::DecreaseLiquidityV2(
                    DecreaseLiquidityV2 {
                        nft_owner: accounts.vault_state.key,
                        nft_account: accounts.position_nft_account.key,
                        personal_position: accounts.personal_position.key,
                        pool_state: accounts.pool_state.key,
                        protocol_position: accounts.personal_position.key,
                        token_vault_0: accounts.token_vault_0.key,
                        token_vault_1: accounts.token_vault_1.key,
                        tick_array_lower: accounts.tick_array_lower.key,
                        tick_array_upper: accounts.tick_array_upper.key,
                        recipient_token_account_0: recipient_0,
                        recipient_token_account_1: recipient_1,
                        token_program: accounts.token_program,
                        token_program_2022: accounts.token_program_2022,
                        memo_program: accounts.memo_program,
                        vault_0_mint: accounts.vault_0_mint,
                        vault_1_mint: accounts.vault_1_mint,
                        liquidity,
                        amount_0_min,
                        amount_1_min,
                    },
                ),
                signer,
                forwards_remaining: true,
            },
        );
    }
    calls.push(
        Cpi {
            program: accounts.clmm_program,
            call: Call::ClosePosition(
                ClosePosition {
                    nft_owner: accounts.vault_state.key,
                    position_nft_mint: accounts.position_nft_mint.key,
                    position_nft_account: accounts.position_nft_account.key,
                    personal_position: accounts.personal_position.key,
                    system_program: accounts.system_program,
                    token_program: accounts.token_program_2022,
                },
            ),
            signer,
            forwards_remaining: false,
        },
    );
    assert(calls@ =~= accounts.calls(amount_0_min, amount_1_min));
    Run::new(vault, calls, Settlement::Unchanged)
}

} // verus!
