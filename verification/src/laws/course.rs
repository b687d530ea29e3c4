//! The course of an instruction from its decision to its end.

use crate::contexts::{Deposit, Withdraw};
use crate::cpi::{Action, Cpi, Event, Run, Settlement};
use crate::error::{Error, VaultError};
use crate::instructions::open_position::PositionTerms;
use crate::instructions::{CloseRaydiumPosition, OpenRaydiumPosition};
use crate::laws::pool::Operation;
use crate::state::VaultState;
use vstd::prelude::*;

verus! {

/// Some steps of an instruction: its states, what had happened before each
/// step, and what each step asked for.
pub struct Course {
    pub runs: Seq<Run>,
    pub events: Seq<Event>,
    pub actions: Seq<Action>,
}

impl Course {
    /// Each state comes from the one before it by a step.
    pub open spec fn valid(self) -> bool {
        &&& self.runs.len() == self.events.len() + 1
        &&& self.actions.len() == self.events.len()
        &&& forall|i: int|
            0 <= i < self.events.len() ==> Run::stepped(
                self.runs[i],
                #[trigger] self.events[i],
                self.runs[i + 1],
                self.actions[i],
            )
    }

    /// No call has failed before step `i` is over.
    pub open spec fn smooth_until(self, i: int) -> bool {
        forall|j: int| 0 <= j <= i ==> #[trigger] self.events[j] == Event::Proceed
    }
}

/// The last word of an instruction whose calls have all gone through.
pub open spec fn outcome(vault: VaultState, settlement: Settlement) -> Action {
    match vault.settled(settlement) {
        Ok(vault) => Action::Commit(vault),
        Err(error) => Action::Refuse(error),
    }
}

/// Where an instruction stands before step `i`.
proof fn lemma_standing(
    course: Course,
    vault: VaultState,
    calls: Seq<Cpi>,
    settlement: Settlement,
    i: int,
)
    requires
        course.valid(),
        course.runs[0].fresh(vault, calls, settlement),
        0 <= i < course.runs.len(),
    ensures
        course.runs[i].vault() == vault,
        course.runs[i].calls() == calls,
        course.runs[i].settlement() == settlement,
        course.runs[i].failed() <==> !course.smooth_until(i - 1),
        course.smooth_until(i - 1) ==> course.runs[i].done() == (if i < calls.len() {
            i
        } else {
            calls.len() as int
        }),
    decreases i,
{
    if i > 0 {
        lemma_standing(course, vault, calls, settlement, i - 1);
        assert(Run::stepped(
            course.runs[i - 1],
            course.events[i - 1],
            course.runs[i - 1 + 1],
            course.actions[i - 1],
        ));
        if course.smooth_until(i - 2) && course.events[i - 1] == Event::Proceed {
            assert(course.smooth_until(i - 1));
        }
        if course.smooth_until(i - 1) {
            assert(course.smooth_until(i - 2));
            assert(course.events[i - 1] == Event::Proceed);
        }
    }
}

/// An instruction makes its calls one by one in their order and settles the
/// books after the last one; from the first call that fails on it does nothing.
pub proof fn law_calls_come_in_order(
    course: Course,
    vault: VaultState,
    calls: Seq<Cpi>,
    settlement: Settlement,
    i: int,
)
    requires
        course.valid(),
        course.runs[0].fresh(vault, calls, settlement),
        0 <= i < course.actions.len(),
    ensures
        course.actions[i] == (if !course.smooth_until(i) {
            Action::Abort
        } else if i < calls.len() {
            Action::Invoke(calls[i])
        } else {
            outcome(vault, settlement)
        }),
{
    lemma_standing(course, vault, calls, settlement, i);
    lemma_standing(course, vault, calls, settlement, i + 1);
    assert(Run::stepped(
        course.runs[i],
        course.events[i],
        course.runs[i + 1],
        course.actions[i],
    ));
    if course.smooth_until(i) {
        assert(course.smooth_until(i - 1));
    }
}

/// A vault is stored only after every call of the instruction has gone through,
/// and then with its books settled.
pub proof fn law_all_or_nothing(
    course: Course,
    vault: VaultState,
    calls: Seq<Cpi>,
    settlement: Settlement,
    i: int,
)
    requires
        course.valid(),
        course.runs[0].fresh(vault, calls, settlement),
        0 <= i < course.actions.len(),
    ensures
        course.actions[i] matches Action::Commit(stored) ==> {
            &&& course.smooth_until(i)
            &&& forall|k: int|
                0 <= k < calls.len() ==> k < i && #[trigger] course.actions[k] == Action::Invoke(
                    calls[k],
                )
            &&& vault.settled(settlement) == Ok::<VaultState, VaultError>(stored)
        },
{
    law_calls_come_in_order(course, vault, calls, settlement, i);
    if course.actions[i] is Commit {
        assert forall|k: int| 0 <= k < calls.len() implies k < i && #[trigger] course.actions[k]
            == Action::Invoke(calls[k]) by {
            law_calls_come_in_order(course, vault, calls, settlement, k);
            assert(course.smooth_until(k));
        }
    }
}

/// Opening or closing a position leaves the books as they are: what is stored in
/// the end is the vault that was there before.
pub proof fn law_positions_leave_the_books(
    course: Course,
    vault: VaultState,
    calls: Seq<Cpi>,
    i: int,
)
    requires
        course.valid(),
        course.runs[0].fresh(vault, calls, Settlement::Unchanged),
        0 <= i < course.actions.len(),
    ensures
        course.actions[i] matches Action::Commit(stored) ==> stored == vault,
        !(course.actions[i] is Refuse),
{
    law_calls_come_in_order(course, vault, calls, Settlement::Unchanged, i);
}

/// A deposit whose calls go through ends with the pool after that deposit.
pub proof fn law_deposits_end_in_the_pool(accounts: Deposit, amount: u64, run: Run)
    requires
        accounts.planned(amount, Ok::<Run, Error>(run)),
    ensures
        run.vault().settled(run.settlement()) == accounts.vault_state.state.after(
            Operation::Deposit(amount),
        ),
{
}

/// A withdrawal whose calls go through ends with the pool after that withdrawal.
pub proof fn law_withdrawals_end_in_the_pool(accounts: Withdraw, shares: u64, run: Run)
    requires
        accounts.planned(shares, Ok::<Run, Error>(run)),
    ensures
        run.vault().settled(run.settlement()) == accounts.vault_state.state.after(
            Operation::Withdraw(shares),
        ),
{
}

/// An opening whose calls go through ends with the pool after that opening.
pub proof fn law_openings_end_in_the_pool(
    accounts: OpenRaydiumPosition,
    terms: PositionTerms,
    run: Run,
)
    requires
        terms.verdict() is Ok,
        run.fresh(
            accounts.vault_state.state,
            accounts.calls(terms),
            Settlement::Unchanged,
        ),
    ensures
        run.vault().settled(run.settlement()) == accounts.vault_state.state.after(
            Operation::OpenPosition(terms),
        ),
{
}

/// A closing whose calls go through ends with the pool after that closing.
pub proof fn law_closings_end_in_the_pool(
    accounts: CloseRaydiumPosition,
    amount_0_min: u64,
    amount_1_min: u64,
    run: Run,
)
    requires
        run.fresh(
            accounts.vault_state.state,
            accounts.calls(amount_0_min, amount_1_min),
            Settlement::Unchanged,
        ),
    ensures
        run.vault().settled(run.settlement()) == accounts.vault_state.state.after(
            Operation::ClosePosition,
        ),
{
}

} // verus!
