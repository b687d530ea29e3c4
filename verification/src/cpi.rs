//! The calls that an instruction makes into other programs, and the order in
//! which it makes them.
//!
//! An instruction decides first which calls it needs and what they do to the
//! vault's books. The caller then performs the calls one by one; the books
//! change only when every call has gone through.

use crate::error::VaultError;
use crate::pubkey::Pubkey;
use crate::state::VaultState;
use vstd::prelude::*;

verus! {

/// Moves tokens between two accounts.
#[derive(Clone, Copy, Debug, PartialEq, Eq)]
pub struct Transfer {
    pub from: Pubkey,
    pub to: Pubkey,
    pub authority: Pubkey,
    pub amount: u64,
}

/// Issues new tokens into an account.
#[derive(Clone, Copy, Debug, PartialEq, Eq)]
pub struct MintTo {
    pub mint: Pubkey,
    pub to: Pubkey,
    pub authority: Pubkey,
    pub amount: u64,
}

/// Destroys tokens of an account.
#[derive(Clone, Copy, Debug, PartialEq, Eq)]
pub struct Burn {
    pub mint: Pubkey,
    pub from: Pubkey,
    pub authority: Pubkey,
    pub amount: u64,
}

/// Lets `delegate` spend up to `amount` tokens of an account.
#[derive(Clone, Copy, Debug, PartialEq, Eq)]
pub struct Approve {
    pub to: Pubkey,
    pub delegate: Pubkey,
    pub authority: Pubkey,
    pub amount: u64,
}

/// Takes the right to spend back from an account's delegate.
#[derive(Clone, Copy, Debug, PartialEq, Eq)]
pub struct Revoke {
    pub source: Pubkey,
    pub authority: Pubkey,
}

/// Takes liquidity out of a Raydium position.
#[derive(Clone, Copy, Debug, PartialEq, Eq)]
pub struct DecreaseLiquidityV2 {
    pub nft_owner: Pubkey,
    pub nft_account: Pubkey,
    pub personal_position: Pubkey,
    pub pool_state: Pubkey,
    pub protocol_position: Pubkey,
    pub token_vault_0: Pubkey,
    pub token_vault_1: Pubkey,
    pub tick_array_lower: Pubkey,
    pub tick_array_upper: Pubkey,
    pub recipient_token_account_0: Pubkey,
    pub recipient_token_account_1: Pubkey,
    pub token_program: Pubkey,
    pub token_program_2022: Pubkey,
    pub memo_program: Pubkey,
    pub vault_0_mint: Pubkey,
    pub vault_1_mint: Pubkey,
    pub liquidity: u128,
    pub amount_0_min: u64,
    pub amount_1_min: u64,
}

/// Closes a Raydium position and burns its NFT.
#[derive(Clone, Copy, Debug, PartialEq, Eq)]
pub struct ClosePosition {
    pub nft_owner: Pubkey,
    pub position_nft_mint: Pubkey,
    pub position_nft_account: Pubkey,
    pub personal_position: Pubkey,
    pub system_program: Pubkey,
    pub token_program: Pubkey,
}

/// Opens a Raydium position and mints its NFT.
#[derive(Clone, Copy, Debug, PartialEq, Eq)]
pub struct OpenPositionWithToken22Nft {
    pub payer: Pubkey,
    pub position_nft_owner: Pubkey,
    pub position_nft_mint: Pubkey,
    pub position_nft_account: Pubkey,
    pub pool_state: Pubkey,
    pub protocol_position: Pubkey,
    pub tick_array_lower: Pubkey,
    pub tick_array_upper: Pubkey,
    pub personal_position: Pubkey,
    pub token_account_0: Pubkey,
    pub token_account_1: Pubkey,
    pub token_vault_0: Pubkey,
    pub token_vault_1: Pubkey,
    pub rent: Pubkey,
    pub system_program: Pubkey,
    pub token_program: Pubkey,
    pub associated_token_program: Pubkey,
    pub token_program_2022: Pubkey,
    pub vault_0_mint: Pubkey,
    pub vault_1_mint: Pubkey,
    pub tick_lower_index: i32,
    pub tick_upper_index: i32,
    pub tick_array_lower_start_index: i32,
    pub tick_array_upper_start_index: i32,
    pub liquidity: u128,
    pub amount_0_max: u64,
    pub amount_1_max: u64,
    pub with_metadata: bool,
    pub base_flag: Option<bool>,
}

/// What a call asks of the other program.
#[derive(Clone, Copy, Debug, PartialEq, Eq)]
pub enum Call {
    Transfer(Transfer),
    MintTo(MintTo),
    Burn(Burn),
    Approve(Approve),
    Revoke(Revoke),
    DecreaseLiquidityV2(DecreaseLiquidityV2),
    ClosePosition(ClosePosition),
    OpenPositionWithToken22Nft(OpenPositionWithToken22Nft),
}

/// The seeds with which the program signs for a vault: the vault prefix, the
/// mint of the vault's token and the vault's bump.
#[derive(Clone, Copy, Debug, PartialEq, Eq)]
pub struct VaultSigner {
    pub token_mint: Pubkey,
    pub bump: u8,
}

/// One call into another program.
#[derive(Clone, Copy, Debug, PartialEq, Eq)]
pub struct Cpi {
    pub program: Pubkey,
    pub call: Call,
    /// The vault that signs the call, besides whoever signed the transaction.
    pub signer: Option<VaultSigner>,
    /// Whether the accounts that follow the declared ones go along.
    pub forwards_remaining: bool,
}

/// What an instruction does to the vault's books in the end.
#[derive(Clone, Copy, Debug, PartialEq, Eq)]
pub enum Settlement {
    /// Tokens came in, shares went out.
    Credit { tokens: u64, shares: u64 },
    /// Tokens went out, shares came in.
    Debit { tokens: u64, shares: u64 },
    /// The books stay as they are.
    Unchanged,
}

/// What happened since the last step.
#[derive(Clone, Copy, Debug, PartialEq, Eq)]
pub enum Event {
    /// Nothing yet, or the last call went through.
    Proceed,
    /// The last call failed.
    CallFailed,
}

/// What the caller has to do next.
#[derive(Clone, Copy, Debug, PartialEq, Eq)]
pub enum Action {
    /// Perform this call and report on it.
    Invoke(Cpi),
    /// Store the vault; the instruction is over.
    Commit(VaultState),
    /// Store nothing and report this error; the instruction is over.
    Refuse(VaultError),
    /// Store nothing and report the error of the call that failed; the
    /// instruction is over.
    Abort,
}

impl VaultState {
    /// The signature of this vault.
    pub open spec fn spec_signer(self) -> VaultSigner {
        VaultSigner { token_mint: self.token_mint, bump: self.bump }
    }

    pub fn signer(&self) -> (signer: VaultSigner)
        ensures
            signer == self.spec_signer(),
    {
        VaultSigner { token_mint: self.token_mint, bump: self.bump }
    }

    /// The books after a settlement: exact sums and differences, refused where
    /// they leave the range of the counters.
    pub open spec fn settled(self, settlement: Settlement) -> Result<VaultState, VaultError> {
        let (tokens, shares) = match settlement {
            Settlement::Credit { tokens, shares } => (
                self.total_tokens + tokens,
                self.total_shares + shares,
            ),
            Settlement::Debit { tokens, shares } => (
                self.total_tokens - tokens,
                self.total_shares - shares,
            ),
            Settlement::Unchanged => (self.total_tokens as int, self.total_shares as int),
        };
        if 0 <= tokens <= u64::MAX && 0 <= shares <= u64::MAX {
            Ok(self.with_totals(tokens as u64, shares as u64))
        } else {
            Err(VaultError::MathOverflow)
        }
    }

    /// Enters a settlement into the books.
    pub fn settle(&self, settlement: Settlement) -> (books: Result<VaultState, VaultError>)
        ensures
            books == self.settled(settlement),
    {
        let (total_tokens, total_shares) = match settlement {
            Settlement::Credit { tokens, shares } => (
                self.total_tokens.checked_add(tokens),
                self.total_shares.checked_add(shares),
            ),
            Settlement::Debit { tokens, shares } => (
                self.total_tokens.checked_sub(tokens),
                self.total_shares.checked_sub(shares),
            ),
            Settlement::Unchanged => (Some(self.total_tokens), Some(self.total_shares)),
        };
        match (total_tokens, total_shares) {
            (Some(total_tokens), Some(total_shares)) => Ok(
                VaultState { total_tokens, total_shares, ..*self },
            ),
            _ => Err(VaultError::MathOverflow),
        }
    }
}

/// An instruction under way.
#[derive(Debug)]
pub struct Run {
    vault: VaultState,
    calls: Vec<Cpi>,
    settlement: Settlement,
    done: usize,
    failed: bool,
}

impl Run {
    /// The vault as the instruction found it.
    pub closed spec fn vault(self) -> VaultState {
        self.vault
    }

    /// All the calls that the instruction makes, in order.
    pub closed spec fn calls(self) -> Seq<Cpi> {
        self.calls@
    }

    /// What the instruction does to the books in the end.
    pub closed spec fn settlement(self) -> Settlement {
        self.settlement
    }

    /// How many calls have been handed out.
    pub closed spec fn done(self) -> nat {
        self.done as nat
    }

    /// Whether a call has failed.
    pub closed spec fn failed(self) -> bool {
        self.failed
    }

    /// The instruction has decided and done nothing yet.
    pub open spec fn fresh(self, vault: VaultState, calls: Seq<Cpi>, settlement: Settlement) -> bool {
        &&& self.vault() == vault
        &&& self.calls() == calls
        &&& self.settlement() == settlement
        &&& self.done() == 0
        &&& !self.failed()
    }

    /// What comes next once all the calls handed out so far have gone through.
    pub open spec fn pending(self) -> Action {
        if self.done() < self.calls().len() {
            Action::Invoke(self.calls()[self.done() as int])
        } else {
            match self.vault().settled(self.settlement()) {
                Ok(vault) => Action::Commit(vault),
                Err(error) => Action::Refuse(error),
            }
        }
    }

    pub(crate) fn new(vault: VaultState, calls: Vec<Cpi>, settlement: Settlement) -> (run: Run)
        ensures
            run.fresh(vault, calls@, settlement),
    {
        Run { vault, calls, settlement, done: 0, failed: false }
    }

    /// The step from one state of an instruction to the next: a failed call
    /// ends it for good, else it does what was pending.
    pub open spec fn stepped(before: Run, event: Event, after: Run, action: Action) -> bool {
        &&& after.vault() == before.vault()
        &&& after.calls() == before.calls()
        &&& after.settlement() == before.settlement()
        &&& after.failed() == (before.failed() || event == Event::CallFailed)
        &&& if after.failed() {
            &&& action == Action::Abort
            &&& after.done() == before.done()
        } else {
            &&& action == before.pending()
            &&& after.done() == before.done() + (if before.done() < before.calls().len() {
                1nat
            } else {
                0nat
            })
        }
    }

    /// Takes note of what happened and says what comes next.
    pub fn step(&mut self, event: Event) -> (action: Action)
        ensures
            Run::stepped(*old(self), event, *final(self), action),
            action is Abort <==> old(self).failed() || event == Event::CallFailed,
            !(action is Abort) && old(self).done() < old(self).calls().len() ==> action
                == Action::Invoke(old(self).calls()[old(self).done() as int]),
            action is Invoke ==> old(self).done() < old(self).calls().len() && final(self).done()
                == old(self).done() + 1,
    {
        match event {
            Event::CallFailed => {
                self.failed = true;
            },
            Event::Proceed => {},
        }
        if self.failed {
            return Action::Abort;
        }
        if self.done < self.calls.len() {
            let call = self.calls[self.done];
            self.done = self.done + 1;
            return Action::Invoke(call);
        }
        match self.vault.settle(self.settlement) {
            Ok(vault) => Action::Commit(vault),
            Err(error) => Action::Refuse(error),
        }
    }
}

} // verus!
