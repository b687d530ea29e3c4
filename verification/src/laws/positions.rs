//! What comes of opening and closing a position.

use crate::cpi::{
    Action, Approve, Call, ClosePosition, Cpi, DecreaseLiquidityV2, OpenPositionWithToken22Nft,
    Revoke, Settlement, VaultSigner,
};
use crate::error::VaultError;
use crate::instructions::open_position::PositionTerms;
use crate::instructions::{CloseRaydiumPosition, OpenRaydiumPosition};
use crate::laws::course::{law_calls_come_in_order, Course};
use vstd::prelude::*;

verus! {

/// Which terms are accepted: all whose ticks are in order and that ask for some
/// liquidity.
pub proof fn law_terms_are_accepted(terms: PositionTerms)
    ensures
        terms.verdict() is Ok <==> terms.tick_lower_index < terms.tick_upper_index
            && terms.liquidity > 0,
        terms.verdict() == Err::<(), VaultError>(VaultError::InvalidTickRange)
            <==> terms.tick_lower_index >= terms.tick_upper_index,
        terms.verdict() == Err::<(), VaultError>(VaultError::ZeroAmount) <==> terms.tick_lower_index
            < terms.tick_upper_index && terms.liquidity == 0,
{
}

/// An opening makes one call that opens a position, and that call carries the
/// terms as they were given: the ticks, the tick arrays, the liquidity and the
/// most that may be taken on either side.
pub proof fn law_openings_carry_their_terms(
    accounts: OpenRaydiumPosition,
    terms: PositionTerms,
    i: int,
)
    requires
        0 <= i < accounts.calls(terms).len(),
    ensures
        accounts.calls(terms)[i].call is OpenPositionWithToken22Nft <==> i == 2,
        accounts.calls(terms)[2].call matches Call::OpenPositionWithToken22Nft(open) && {
            &&& open.tick_lower_index == terms.tick_lower_index
            &&& open.tick_upper_index == terms.tick_upper_index
            &&& open.tick_array_lower_start_index == terms.tick_array_lower_start_index
            &&& open.tick_array_upper_start_index == terms.tick_array_upper_start_index
            &&& open.liquidity == terms.liquidity
            &&& open.amount_0_max == terms.amount_0_max
            &&& open.amount_1_max == terms.amount_1_max
        },
{
}

/// What comes of an opening: the admin may spend from both of the vault's
/// accounts, on the side of each as much as the terms allow there; the position
/// is opened with these accounts, paid for by the admin and owned by the vault;
/// then both rights are taken back, and the vault is stored as it was. Nothing
/// more happens once a call fails.
pub proof fn law_openings_do_what_they_promise(
    accounts: OpenRaydiumPosition,
    terms: PositionTerms,
    course: Course,
    i: int,
)
    requires
        course.runs[0].fresh(
            accounts.vault_state.state,
            accounts.calls(terms),
            Settlement::Unchanged,
        ),
        course.valid(),
        0 <= i < course.actions.len(),
    ensures
        ({
            let vault = accounts.vault_state.state;
            let signer = Some(VaultSigner { token_mint: vault.token_mint, bump: vault.bump });
            let own_is_first = accounts.vault_0_mint == vault.token_mint;
            let own = accounts.vault_token_account.key;
            let wsol = accounts.vault_wsol_account.key;
            let own_max = if own_is_first {
                terms.amount_0_max
            } else {
                terms.amount_1_max
            };
            let wsol_max = if own_is_first {
                terms.amount_1_max
            } else {
                terms.amount_0_max
            };
            course.actions[i] == (if !course.smooth_until(i) {
                Action::Abort
            } else if i == 0 {
                Action::Invoke(
                    Cpi {
                        program: accounts.token_program,
                        call: Call::Approve(
                            Approve {
                                to: own,
                                delegate: accounts.admin.key,
                                authority: accounts.vault_state.key,
                                amount: own_max,
                            },
                        ),
                        signer,
                        forwards_remaining: false,
                    },
                )
            } else if i == 1 {
                Action::Invoke(
                    Cpi {
                        program: accounts.token_program,
                        call: Call::Approve(
                            Approve {
                                to: wsol,
                                delegate: accounts.admin.key,
                                authority: accounts.vault_state.key,
                                amount: wsol_max,
                            },
                        ),
                        signer,
                        forwards_remaining: false,
                    },
                )
            } else if i == 2 {
                Action::Invoke(
                    Cpi {
                        program: accounts.clmm_program,
                        call: Call::OpenPositionWithToken22Nft(
                            OpenPositionWithToken22Nft {
                                payer: accounts.admin.key,
                                position_nft_owner: accounts.vault_state.key,
                                position_nft_mint: accounts.position_nft_mint.key,
                                position_nft_account: accounts.position_nft_account.key,
                                pool_state: accounts.pool_state.key,
                                protocol_position: accounts.personal_position.key,
                                tick_array_lower: accounts.tick_array_lower.key,
                                tick_array_upper: accounts.tick_array_upper.key,
                                personal_position: accounts.personal_position.key,
                                token_account_0: if own_is_first {
                                    own
                                } else {
                                    wsol
                                },
                                token_account_1: if own_is_first {
                                    wsol
                                } else {
                                    own
                                },
                                token_vault_0: accounts.token_vault_0.key,
                                token_vault_1: accounts.token_vault_1.key,
                                rent: accounts.rent,
                                system_program: accounts.system_program,
                                token_program: accounts.token_program,
                                associated_token_program: accounts.associated_token_program,
                                token_program_2022: accounts.token_program_2022,
                                vault_0_mint: accounts.vault_0_mint,
                                vault_1_mint: accounts.vault_1_mint,
                                tick_lower_index: terms.tick_lower_index,
                                tick_upper_index: terms.tick_upper_index,
                                tick_array_lower_start_index: terms.tick_array_lower_start_index,
                                tick_array_upper_start_index: terms.tick_array_upper_start_index,
                                liquidity: terms.liquidity,
                                amount_0_max: terms.amount_0_max,
                                amount_1_max: terms.amount_1_max,
                                with_metadata: true,
                                base_flag: Some(false),
                            },
                        ),
                        signer,
                        forwards_remaining: true,
                    },
                )
            } else if i == 3 {
                Action::Invoke(
                    Cpi {
                        program: accounts.token_program,
                        call: Call::Revoke(
                            Revoke { source: own, authority: accounts.vault_state.key },
                        ),
                        signer,
                        forwards_remaining: false,
                    },
                )
            } else if i == 4 {
                Action::Invoke(
                    Cpi {
                        program: accounts.token_program,
                        call: Call::Revoke(
                            Revoke { source: wsol, authority: accounts.vault_state.key },
                        ),
                        signer,
                        forwards_remaining: false,
                    },
                )
            } else {
                Action::Commit(vault)
            })
        }),
{
    law_calls_come_in_order(
        course,
        accounts.vault_state.state,
        accounts.calls(terms),
        Settlement::Unchanged,
        i,
    );
}

/// A position that holds liquidity is emptied before it is closed, whatever the
/// least amounts are: two calls, the first of which takes out all of it for no
/// less than those amounts. An empty position is closed at once.
pub proof fn law_closings_empty_the_position(
    accounts: CloseRaydiumPosition,
    amount_0_min: u64,
    amount_1_min: u64,
)
    ensures
        ({
            let calls = accounts.calls(amount_0_min, amount_1_min);
            let liquidity = accounts.personal_position.liquidity;
            &&& calls.len() == (if liquidity > 0 {
                2nat
            } else {
                1nat
            })
            &&& liquidity > 0 ==> (calls[0].call matches Call::DecreaseLiquidityV2(out) && {
                &&& out.liquidity == liquidity
                &&& out.amount_0_min == amount_0_min
                &&& out.amount_1_min == amount_1_min
                &&& out.personal_position == accounts.personal_position.key
            })
            &&& calls[calls.len() - 1].call matches Call::ClosePosition(close)
                && close.personal_position == accounts.personal_position.key
        }),
{
}

/// What comes of a closing: the liquidity, if there is any, goes to the vault's
/// accounts, each on its side of the pool; the position is closed in the name of
/// the vault, and the vault is stored as it was. Nothing more happens once a call
/// fails.
pub proof fn law_closings_do_what_they_promise(
    accounts: CloseRaydiumPosition,
    amount_0_min: u64,
    amount_1_min: u64,
    course: Course,
    i: int,
)
    requires
        course.runs[0].fresh(
            accounts.vault_state.state,
            accounts.calls(amount_0_min, amount_1_min),
            Settlement::Unchanged,
        ),
        course.valid(),
        0 <= i < course.actions.len(),
    ensures
        ({
            let vault = accounts.vault_state.state;
            let signer = Some(VaultSigner { token_mint: vault.token_mint, bump: vault.bump });
            let own_is_first = accounts.vault_0_mint == vault.token_mint;
            let own = accounts.vault_token_account.key;
            let wsol = accounts.vault_wsol_account.key;
            let liquidity = accounts.personal_position.liquidity;
            let last = if liquidity > 0 {
                1int
            } else {
                0int
            };
            course.actions[i] == (if !course.smooth_until(i) {
                Action::Abort
            } else if i < last {
                Action::Invoke(
                    Cpi {
                        program: accounts.clmm_program,
                        call: Call::DecreaseLiquidityV2(
                            DecreaseLiquidityV2 {
                                nft_owner: accounts.vault_state.key,
                                nft_account: accounts.position_nft_account.key,
                                personal_position: accounts.personal_position.key,
                                pool_state: accounts.pool_state.key,
                                protocol_position: accounts.personal_position.key,
                                token_vault_0: accounts.token_vault_0.key,
                                token_vault_1: accounts.token_vault_1.key,
                                tick_array_lower: accounts.tick_array_lower.key,
                                tick_array_upper: accounts.tick_array_upper.key,
                                recipient_token_account_0: if own_is_first {
                                    own
                                } else {
                                    wsol
                                },
                                recipient_token_account_1: if own_is_first {
                                    wsol
                                } else {
                                    own
                                },
                                token_program: accounts.token_program,
                                token_program_2022: accounts.token_program_2022,
                                memo_program: accounts.memo_program,
                                vault_0_mint: accounts.vault_0_mint,
                                vault_1_mint: accounts.vault_1_mint,
                                liquidity,
                                amount_0_min,
                                amount_1_min,
                            },
                        ),
                        signer,
                        forwards_remaining: true,
                    },
                )
            } else if i == last {
                Action::Invoke(
                    Cpi {
                        program: accounts.clmm_program,
                        call: Call::ClosePosition(
                            ClosePosition {
                                nft_owner: accounts.vault_state.key,
                                position_nft_mint: accounts.position_nft_mint.key,
                                position_nft_account: accounts.position_nft_account.key,
                                personal_position: accounts.personal_position.key,
                                system_program: accounts.system_program,
                                token_program: accounts.token_program_2022,
                            },
                        ),
                        signer,
                        forwards_remaining: false,
                    },
                )
            } else {
                Action::Commit(vault)
            })
        }),
{
    law_calls_come_in_order(
        course,
        accounts.vault_state.state,
        accounts.calls(amount_0_min, amount_1_min),
        Settlement::Unchanged,
        i,
    );
}

/// What goes into a position and what comes out of it meet the same two accounts
/// on the same sides, where both name the same pool tokens and accounts.
pub proof fn law_sides_stay(
    opening: OpenRaydiumPosition,
    terms: PositionTerms,
    closing: CloseRaydiumPosition,
    amount_0_min: u64,
    amount_1_min: u64,
)
    requires
        opening.vault_0_mint == closing.vault_0_mint,
        opening.vault_state.state.token_mint == closing.vault_state.state.token_mint,
        opening.vault_token_account.key == closing.vault_token_account.key,
        opening.vault_wsol_account.key == closing.vault_wsol_account.key,
        closing.personal_position.liquidity > 0,
    ensures
        ({
            let into = opening.calls(terms)[2].call->OpenPositionWithToken22Nft_0;
            let out = closing.calls(amount_0_min, amount_1_min)[0].call->DecreaseLiquidityV2_0;
            &&& out.recipient_token_account_0 == into.token_account_0
            &&& out.recipient_token_account_1 == into.token_account_1
        }),
{
}

} // verus!
