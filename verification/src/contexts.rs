//! The accounts of the instructions that open a vault and that move tokens into
//! it and out of it.
//!
//! The framework has decoded the accounts before they come here: it has seen to
//! it that each is of its kind, that `admin` and `user` have signed, and that
//! the programs are the programs they are named after.

use crate::accounts::{
    at_found, at_known, check_found, check_known, demand, first_refusal, first_refusal_from,
    require, same, AccountRef, Mint, TokenAccount, VaultAccount,
};
use crate::error::{Error, Role};
use crate::pda::{
    address_in, bytes_of, created_address, find_share_mint, find_vault_tokens, found_address,
    vault_address, SHARE_MINT_SEED, VAULT_SEED, VAULT_TOKENS_SEED,
};
use crate::pubkey::Pubkey;
use crate::state::VaultState;
use vstd::prelude::*;

verus! {

/// The decimals of the shares.
pub const SHARE_DECIMALS: u8 = 6;

/// Where the accounts of a vault have to be, as far as they can be derived.
#[derive(Clone, Copy, Debug, PartialEq, Eq)]
pub struct Derived {
    pub vault_state: Option<Pubkey>,
    pub vault_token_account: Option<Pubkey>,
    pub share_mint: Option<Pubkey>,
}

/// The bytes of the addresses in a `Derived`.
pub struct DerivedBytes {
    pub vault_state: Option<Seq<u8>>,
    pub vault_token_account: Option<Seq<u8>>,
    pub share_mint: Option<Seq<u8>>,
}

impl View for Derived {
    type V = DerivedBytes;

    open spec fn view(&self) -> DerivedBytes {
        DerivedBytes {
            vault_state: bytes_of(self.vault_state),
            vault_token_account: bytes_of(self.vault_token_account),
            share_mint: bytes_of(self.share_mint),
        }
    }
}

/// Where the accounts of `vault` have to be.
pub open spec fn derived_for(vault: VaultState, program: Pubkey) -> DerivedBytes {
    DerivedBytes {
        vault_state: created_address(VAULT_SEED@, vault.token_mint@, vault.bump, program@),
        vault_token_account: address_in(
            found_address(VAULT_TOKENS_SEED@, vault.token_mint@, program@),
        ),
        share_mint: address_in(found_address(SHARE_MINT_SEED@, vault.token_mint@, program@)),
    }
}

/// Derives where the accounts of `vault` have to be.
pub fn derive_addresses(vault: &VaultState, program: &Pubkey) -> (derived: Derived)
    ensures
        derived@ == derived_for(*vault, *program),
{
    Derived {
        vault_state: vault_address(&vault.token_mint, vault.bump, program),
        vault_token_account: find_vault_tokens(&vault.token_mint, program),
        share_mint: find_share_mint(&vault.token_mint, program),
    }
}

/// The accounts of `initialize_vault`. The first three are made by it, and the
/// system program refuses to make an account that is in use: one that holds data
/// or belongs to a program.
#[derive(Clone, Copy, Debug, PartialEq, Eq)]
pub struct InitializeVault {
    pub vault_state: AccountRef,
    pub vault_token_account: AccountRef,
    pub share_mint: AccountRef,
    pub token_mint: Pubkey,
    pub admin: AccountRef,
}

/// How the accounts of a new vault are made.
#[derive(Clone, Copy, Debug, PartialEq, Eq)]
pub struct MadeAccounts {
    /// Who pays for all three of them.
    pub payer: Pubkey,
    /// The size of the account that stores the vault.
    pub vault_space: usize,
    /// The account that holds the tokens; the vault may spend from it.
    pub vault_token_account: TokenAccount,
    /// The mint of the shares; the vault issues them.
    pub share_mint: Mint,
    pub share_decimals: u8,
    /// Who may freeze accounts that hold shares.
    pub share_freeze_authority: Option<Pubkey>,
}

/// A vault that has just been opened.
#[derive(Clone, Copy, Debug, PartialEq, Eq)]
pub struct NewVault {
    pub state: VaultState,
    pub made: MadeAccounts,
}

/// The accounts of `deposit`.
#[derive(Clone, Copy, Debug, PartialEq, Eq)]
pub struct Deposit {
    pub vault_state: VaultAccount,
    pub vault_token_account: TokenAccount,
    pub share_mint: Mint,
    /// Where the tokens come from.
    pub user_token_account: TokenAccount,
    /// Where the shares go.
    pub user_share_account: TokenAccount,
    pub user: AccountRef,
    pub token_program: Pubkey,
}

/// The accounts of `withdraw`.
#[derive(Clone, Copy, Debug, PartialEq, Eq)]
pub struct Withdraw {
    pub vault_state: VaultAccount,
    pub vault_token_account: TokenAccount,
    pub share_mint: Mint,
    /// Where the tokens go.
    pub user_token_account: TokenAccount,
    /// Where the shares are burned.
    pub user_share_account: TokenAccount,
    pub user: AccountRef,
    pub token_program: Pubkey,
}

impl InitializeVault {
    /// The admin, who pays, is not the account at `new` that is to be made.
    pub open spec fn paid_from_elsewhere(self, new: Pubkey) -> Result<(), Error> {
        demand(self.admin.key != new, Error::TryingToInitPayerAsProgramAccount)
    }

    fn check_paid_from_elsewhere(&self, new: &Pubkey) -> (verdict: Result<(), Error>)
        ensures
            verdict == self.paid_from_elsewhere(*new),
    {
        require(!same(&self.admin.key, new), Error::TryingToInitPayerAsProgramAccount)
    }

    /// The constraints on the accounts, in the order in which they are asked.
    pub open spec fn verdict(self, derived: DerivedBytes) -> Result<(), Error> {
        first_refusal(
            seq![
                at_found(self.vault_state.key, derived.vault_state, Role::VaultState),
                self.paid_from_elsewhere(self.vault_state.key),
                demand(self.vault_state.is_writable, Error::ConstraintMut(Role::VaultState)),
                at_found(
                    self.vault_token_account.key,
                    derived.vault_token_account,
                    Role::VaultTokenAccount,
                ),
                self.paid_from_elsewhere(self.vault_token_account.key),
                demand(
                    self.vault_token_account.is_writable,
                    Error::ConstraintMut(Role::VaultTokenAccount),
                ),
                at_found(self.share_mint.key, derived.share_mint, Role::ShareMint),
                self.paid_from_elsewhere(self.share_mint.key),
                demand(self.share_mint.is_writable, Error::ConstraintMut(Role::ShareMint)),
                demand(self.admin.is_writable, Error::ConstraintMut(Role::Admin)),
            ],
        )
    }

    /// Holds the accounts to their constraints.
    pub fn check(&self, derived: &Derived) -> (verdict: Result<(), Error>)
        ensures
            verdict == self.verdict(derived@),
    {
        proof {
            reveal_with_fuel(first_refusal_from, 11);
        }
        check_found(&self.vault_state.key, &derived.vault_state, Role::VaultState)?;
        self.check_paid_from_elsewhere(&self.vault_state.key)?;
        require(self.vault_state.is_writable, Error::ConstraintMut(Role::VaultState))?;
        check_found(
            &self.vault_token_account.key,
            &derived.vault_token_account,
            Role::VaultTokenAccount,
        )?;
        self.check_paid_from_elsewhere(&self.vault_token_account.key)?;
        require(
            self.vault_token_account.is_writable,
            Error::ConstraintMut(Role::VaultTokenAccount),
        )?;
        check_found(&self.share_mint.key, &derived.share_mint, Role::ShareMint)?;
        self.check_paid_from_elsewhere(&self.share_mint.key)?;
        require(self.share_mint.is_writable, Error::ConstraintMut(Role::ShareMint))?;
        require(self.admin.is_writable, Error::ConstraintMut(Role::Admin))
    }
}

/// The constraints on the accounts of a user who moves tokens into a vault or
/// out of it, in the order in which they are asked.
pub open spec fn holder_verdict(
    vault_state: VaultAccount,
    vault_token_account: TokenAccount,
    share_mint: Mint,
    user_token_account: TokenAccount,
    user_share_account: TokenAccount,
    user: AccountRef,
    derived: DerivedBytes,
) -> Result<(), Error> {
    first_refusal(
        seq![
            at_known(vault_state.key, derived.vault_state, Role::VaultState),
            demand(vault_state.is_writable, Error::ConstraintMut(Role::VaultState)),
            at_found(
                vault_token_account.key,
                derived.vault_token_account,
                Role::VaultTokenAccount,
            ),
            demand(vault_token_account.is_writable, Error::ConstraintMut(Role::VaultTokenAccount)),
            vault_token_account.held(vault_state.key, vault_state.state.token_mint),
            at_found(share_mint.key, derived.share_mint, Role::ShareMint),
            demand(share_mint.is_writable, Error::ConstraintMut(Role::ShareMint)),
            share_mint.issued_by(vault_state.key),
            demand(user_token_account.is_writable, Error::ConstraintMut(Role::UserTokenAccount)),
            user_token_account.held(user.key, vault_state.state.token_mint),
            demand(user_share_account.is_writable, Error::ConstraintMut(Role::UserShareAccount)),
            user_share_account.held(user.key, share_mint.key),
            demand(user.is_writable, Error::ConstraintMut(Role::User)),
        ],
    )
}

fn check_holder(
    vault_state: &VaultAccount,
    vault_token_account: &TokenAccount,
    share_mint: &Mint,
    user_token_account: &TokenAccount,
    user_share_account: &TokenAccount,
    user: &AccountRef,
    derived: &Derived,
) -> (verdict: Result<(), Error>)
    ensures
        verdict == holder_verdict(
            *vault_state,
            *vault_token_account,
            *share_mint,
            *user_token_account,
            *user_share_account,
            *user,
            derived@,
        ),
{
    proof {
        reveal_with_fuel(first_refusal_from, 14);
    }
    let token_mint = &vault_state.state.token_mint;
    check_known(&vault_state.key, &derived.vault_state, Role::VaultState)?;
    require(vault_state.is_writable, Error::ConstraintMut(Role::VaultState))?;
    check_found(&vault_token_account.key, &derived.vault_token_account, Role::VaultTokenAccount)?;
    require(vault_token_account.is_writable, Error::ConstraintMut(Role::VaultTokenAccount))?;
    vault_token_account.check_held(&vault_state.key, token_mint)?;
    check_found(&share_mint.key, &derived.share_mint, Role::ShareMint)?;
    require(share_mint.is_writable, Error::ConstraintMut(Role::ShareMint))?;
    share_mint.check_issued_by(&vault_state.key)?;
    require(user_token_account.is_writable, Error::ConstraintMut(Role::UserTokenAccount))?;
    user_token_account.check_held(&user.key, token_mint)?;
    require(user_share_account.is_writable, Error::ConstraintMut(Role::UserShareAccount))?;
    user_share_account.check_held(&user.key, &share_mint.key)?;
    require(user.is_writable, Error::ConstraintMut(Role::User))
}

impl Deposit {
    pub open spec fn verdict(self, derived: DerivedBytes) -> Result<(), Error> {
        holder_verdict(
            self.vault_state,
            self.vault_token_account,
            self.share_mint,
            self.user_token_account,
            self.user_share_account,
            self.user,
            derived,
        )
    }

    /// Holds the accounts to their constraints.
    pub fn check(&self, derived: &Derived) -> (verdict: Result<(), Error>)
        ensures
            verdict == self.verdict(derived@),
    {
        check_holder(
            &self.vault_state,
            &self.vault_token_account,
            &self.share_mint,
            &self.user_token_account,
            &self.user_share_account,
            &self.user,
            derived,
        )
    }
}

impl Withdraw {
    pub open spec fn verdict(self, derived: DerivedBytes) -> Result<(), Error> {
        holder_verdict(
            self.vault_state,
            self.vault_token_account,
            self.share_mint,
            self.user_token_account,
            self.user_share_account,
            self.user,
            derived,
        )
    }

    /// Holds the accounts to their constraints.
    pub fn check(&self, derived: &Derived) -> (verdict: Result<(), Error>)
        ensures
            verdict == self.verdict(derived@),
    {
        check_holder(
            &self.vault_state,
            &self.vault_token_account,
            &self.share_mint,
            &self.user_token_account,
            &self.user_share_account,
            &self.user,
            derived,
        )
    }
}

} // verus!
