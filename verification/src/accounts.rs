//! What an instruction reads of the accounts it is given, and the constraints
//! that it puts on each of them.

use crate::error::{Error, Role, VaultError};
use crate::pda::bytes_of;
use crate::pubkey::{lemma_same_bytes, Pubkey};
use crate::state::VaultState;
use vstd::prelude::*;

verus! {

/// An account of which only the address matters.
#[derive(Clone, Copy, Debug, PartialEq, Eq)]
pub struct AccountRef {
    pub key: Pubkey,
    pub is_writable: bool,
}

/// An account that holds tokens.
#[derive(Clone, Copy, Debug, PartialEq, Eq)]
pub struct TokenAccount {
    pub key: Pubkey,
    pub is_writable: bool,
    /// The token it holds.
    pub mint: Pubkey,
    /// Who may spend from it.
    pub owner: Pubkey,
}

/// A token's mint.
#[derive(Clone, Copy, Debug, PartialEq, Eq)]
pub struct Mint {
    pub key: Pubkey,
    pub is_writable: bool,
    /// Who may issue the token.
    pub mint_authority: Option<Pubkey>,
}

/// The account that stores a vault.
#[derive(Clone, Copy, Debug, PartialEq, Eq)]
pub struct VaultAccount {
    pub key: Pubkey,
    pub is_writable: bool,
    pub state: VaultState,
}

/// A position in a Raydium pool.
#[derive(Clone, Copy, Debug, PartialEq, Eq)]
pub struct PersonalPosition {
    pub key: Pubkey,
    pub is_writable: bool,
    /// The pool that it is a position in.
    pub pool_id: Pubkey,
    pub liquidity: u128,
}

/// The first refusal in a list of verdicts, from place `from` on.
pub open spec fn first_refusal_from(
    verdicts: Seq<Result<(), Error>>,
    from: int,
) -> Result<(), Error>
    decreases verdicts.len() - from,
{
    if from < 0 || from >= verdicts.len() {
        Ok(())
    } else if verdicts[from] is Err {
        verdicts[from]
    } else {
        first_refusal_from(verdicts, from + 1)
    }
}

/// The first refusal in a list of verdicts.
pub open spec fn first_refusal(verdicts: Seq<Result<(), Error>>) -> Result<(), Error> {
    first_refusal_from(verdicts, 0)
}

/// `Ok` where the condition holds, else the error.
pub open spec fn demand(condition: bool, error: Error) -> Result<(), Error> {
    if condition {
        Ok(())
    } else {
        Err(error)
    }
}

pub(crate) fn require(condition: bool, error: Error) -> (verdict: Result<(), Error>)
    ensures
        verdict == demand(condition, error),
{
    if condition {
        Ok(())
    } else {
        Err(error)
    }
}

/// Two addresses are the same.
pub(crate) fn same(a: &Pubkey, b: &Pubkey) -> (same: bool)
    ensures
        same == (*a == *b),
        same == (a@ == b@),
{
    proof {
        lemma_same_bytes(*a, *b);
    }
    *a == *b
}

/// The account is where its seeds and a known bump lead.
pub open spec fn at_known(key: Pubkey, derived: Option<Seq<u8>>, role: Role) -> Result<(), Error> {
    demand(derived == Some(key@), Error::ConstraintSeeds(role))
}

/// The account is where the search for a bump leads.
pub open spec fn at_found(key: Pubkey, derived: Option<Seq<u8>>, role: Role) -> Result<(), Error> {
    match derived {
        Some(address) => demand(key@ == address, Error::ConstraintSeeds(role)),
        None => Err(Error::NoViableBump(role)),
    }
}

pub(crate) fn check_known(key: &Pubkey, derived: &Option<Pubkey>, role: Role) -> (verdict: Result<
    (),
    Error,
>)
    ensures
        verdict == at_known(*key, bytes_of(*derived), role),
{
    match derived {
        Some(address) => require(same(key, address), Error::ConstraintSeeds(role)),
        None => Err(Error::ConstraintSeeds(role)),
    }
}

pub(crate) fn check_found(key: &Pubkey, derived: &Option<Pubkey>, role: Role) -> (verdict: Result<
    (),
    Error,
>)
    ensures
        verdict == at_found(*key, bytes_of(*derived), role),
{
    match derived {
        Some(address) => require(same(key, address), Error::ConstraintSeeds(role)),
        None => Err(Error::NoViableBump(role)),
    }
}

impl TokenAccount {
    /// The account belongs to `owner` and holds the token `mint`, asked in that order.
    pub open spec fn held(self, owner: Pubkey, mint: Pubkey) -> Result<(), Error> {
        first_refusal(
            seq![
                demand(self.owner == owner, Error::ConstraintTokenOwner),
                demand(self.mint == mint, Error::ConstraintTokenMint),
            ],
        )
    }

    pub(crate) fn check_held(&self, owner: &Pubkey, mint: &Pubkey) -> (verdict: Result<(), Error>)
        ensures
            verdict == self.held(*owner, *mint),
    {
        proof {
            reveal_with_fuel(first_refusal_from, 3);
        }
        require(same(&self.owner, owner), Error::ConstraintTokenOwner)?;
        require(same(&self.mint, mint), Error::ConstraintTokenMint)
    }
}

impl Mint {
    /// Only `authority` issues the token.
    pub open spec fn issued_by(self, authority: Pubkey) -> Result<(), Error> {
        demand(self.mint_authority == Some(authority), Error::ConstraintMintMintAuthority)
    }

    pub(crate) fn check_issued_by(&self, authority: &Pubkey) -> (verdict: Result<(), Error>)
        ensures
            verdict == self.issued_by(*authority),
    {
        match &self.mint_authority {
            Some(issuer) => require(same(issuer, authority), Error::ConstraintMintMintAuthority),
            None => Err(Error::ConstraintMintMintAuthority),
        }
    }
}

impl VaultAccount {
    /// The vault answers to `admin`.
    pub open spec fn run_by(self, admin: Pubkey) -> Result<(), Error> {
        demand(self.state.admin == admin, Error::Vault(VaultError::Unauthorized))
    }

    pub(crate) fn check_run_by(&self, admin: &Pubkey) -> (verdict: Result<(), Error>)
        ensures
            verdict == self.run_by(*admin),
    {
        require(same(&self.state.admin, admin), Error::Vault(VaultError::Unauthorized))
    }
}

} // verus!
