//! A vault is opened once.

use crate::contexts::InitializeVault;
use crate::laws::access::law_one_vault_per_mint;
use crate::laws::pool::{law_every_share_is_backed, Operation};
use crate::pda::{found_address, VAULT_SEED};
use crate::pubkey::Pubkey;
use crate::state::VaultState;
use vstd::prelude::*;

verus! {

/// The addresses that are in use, and the vaults that are stored at some of them.
pub struct Chain {
    pub in_use: Set<Pubkey>,
    pub vaults: Map<Pubkey, VaultState>,
}

/// Something that happens.
pub enum Step {
    /// Somebody opens a vault, or tries to.
    Open(InitializeVault),
    /// Somebody does something with the vault that is stored at an address.
    Operate(Pubkey, Operation),
    /// An address comes into use elsewhere.
    Occupy(Pubkey),
}

impl InitializeVault {
    /// The bump of the vault that is opened.
    pub open spec fn bump(self, program: Pubkey) -> u8 {
        let (_, bump) = found_address(VAULT_SEED@, self.token_mint@, program@)->0;
        bump
    }
}

impl Chain {
    /// What there is after a step; what does not go through leaves no trace.
    pub open spec fn after(self, program: Pubkey, step: Step) -> Chain {
        match step {
            Step::Open(accounts) => if accounts.goes_through(program, self.in_use) {
                Chain {
                    in_use: self.in_use.insert(accounts.vault_state.key).insert(
                        accounts.vault_token_account.key,
                    ).insert(accounts.share_mint.key),
                    vaults: self.vaults.insert(
                        accounts.vault_state.key,
                        accounts.opened(accounts.bump(program)),
                    ),
                }
            } else {
                self
            },
            Step::Operate(key, operation) => if self.vaults.contains_key(key) {
                Chain {
                    in_use: self.in_use,
                    vaults: self.vaults.insert(key, self.vaults[key].after_all(seq![operation])),
                }
            } else {
                self
            },
            Step::Occupy(key) => Chain { in_use: self.in_use.insert(key), vaults: self.vaults },
        }
    }

    /// What there is after some steps.
    pub open spec fn after_all(self, program: Pubkey, steps: Seq<Step>) -> Chain
        decreases steps.len(),
    {
        if steps.len() == 0 {
            self
        } else {
            self.after_all(program, steps.drop_last()).after(program, steps.last())
        }
    }
}

/// What some of the steps do with the vault at `key`.
pub open spec fn operations_on(steps: Seq<Step>, key: Pubkey) -> Seq<Operation>
    decreases steps.len(),
{
    if steps.len() == 0 {
        Seq::empty()
    } else {
        let before = operations_on(steps.drop_last(), key);
        match steps.last() {
            Step::Operate(at, operation) => if at == key {
                before.push(operation)
            } else {
                before
            },
            _ => before,
        }
    }
}

/// Once a vault has been opened for a mint, nobody opens another one for that
/// mint while any of its accounts is in use.
pub proof fn law_no_second_opening(
    program: Pubkey,
    first: InitializeVault,
    second: InitializeVault,
    before: Set<Pubkey>,
    after: Set<Pubkey>,
)
    requires
        first.token_mint == second.token_mint,
        first.goes_through(program, before),
        ({
            ||| after.contains(first.vault_state.key)
            ||| after.contains(first.vault_token_account.key)
            ||| after.contains(first.share_mint.key)
        }),
    ensures
        !second.goes_through(program, after),
{
    if second.goes_through(program, after) {
        law_one_vault_per_mint(program, first, second);
    }
}

/// Operations are done one after the other.
proof fn lemma_one_more(vault: VaultState, operations: Seq<Operation>, operation: Operation)
    ensures
        vault.after_all(operations.push(operation)) == vault.after_all(operations).after_all(
            seq![operation],
        ),
{
    reveal_with_fuel(VaultState::after_all, 2);
    assert(operations.push(operation).drop_last() =~= operations);
    assert(seq![operation].drop_last() =~= Seq::<Operation>::empty());
}

/// Whatever has happened since a vault was opened, by whomever: it is what the
/// operations on it have made of the vault that was opened, with the admin who
/// opened it, and whoever tries to open one for its mint again is refused and
/// changes nothing.
pub proof fn law_vaults_are_opened_once(
    program: Pubkey,
    chain: Chain,
    first: InitializeVault,
    steps: Seq<Step>,
    second: InitializeVault,
)
    requires
        first.goes_through(program, chain.in_use),
        second.token_mint == first.token_mint,
    ensures
        ({
            let later = chain.after(program, Step::Open(first)).after_all(program, steps);
            let key = first.vault_state.key;
            let opened = first.opened(first.bump(program));
            &&& !second.goes_through(program, later.in_use)
            &&& later.after(program, Step::Open(second)) == later
            &&& later.vaults.contains_key(key)
            &&& later.vaults[key] == opened.after_all(operations_on(steps, key))
            &&& later.vaults[key] == opened.with_totals(
                later.vaults[key].total_tokens,
                later.vaults[key].total_shares,
            )
            &&& later.vaults[key].admin == first.admin.key
        }),
{
    let later = chain.after(program, Step::Open(first)).after_all(program, steps);
    lemma_opened_vault(program, chain, first, steps);
    law_no_second_opening(program, first, second, chain.in_use, later.in_use);
    law_every_share_is_backed(
        first,
        first.bump(program),
        operations_on(steps, first.vault_state.key),
    );
}

/// The vault is still there, as what the operations on it have made of it.
proof fn lemma_opened_vault(
    program: Pubkey,
    chain: Chain,
    first: InitializeVault,
    steps: Seq<Step>,
)
    requires
        first.goes_through(program, chain.in_use),
    ensures
        ({
            let later = chain.after(program, Step::Open(first)).after_all(program, steps);
            let key = first.vault_state.key;
            &&& later.in_use.contains(key)
            &&& later.vaults.contains_key(key)
            &&& later.vaults[key] == first.opened(first.bump(program)).after_all(
                operations_on(steps, key),
            )
        }),
    decreases steps.len(),
{
    if steps.len() > 0 {
        let key = first.vault_state.key;
        lemma_opened_vault(program, chain, first, steps.drop_last());
        if let Step::Operate(_, operation) = steps.last() {
            lemma_one_more(
                first.opened(first.bump(program)),
                operations_on(steps.drop_last(), key),
                operation,
            );
        }
    }
}

} // verus!
