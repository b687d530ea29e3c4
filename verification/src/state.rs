use crate::pubkey::Pubkey;
use vstd::prelude::*;

verus! {

/// What the program keeps about one vault.
#[derive(Clone, Copy, Debug, PartialEq, Eq)]
pub struct VaultState {
    pub admin: Pubkey,
    /// The SPL token that the vault accepts.
    pub token_mint: Pubkey,
    /// The account that holds the deposited tokens.
    pub vault_token_account: Pubkey,
    /// The mint of the shares.
    pub share_mint: Pubkey,
    /// All tokens credited to depositors.
    pub total_tokens: u64,
    /// All shares issued.
    pub total_shares: u64,
    /// The bump of the vault's own address.
    pub bump: u8,
}

impl VaultState {
    /// The size of a stored vault: an eight-byte tag, then the fields.
    pub const LEN: usize = 8 + 32 + 32 + 32 + 32 + 8 + 8 + 1;

    /// Tokens and shares are both there or both gone, so that every share is
    /// worth something and no token is without an owner.
    pub open spec fn balanced(self) -> bool {
        self.total_tokens == 0 <==> self.total_shares == 0
    }

    /// The same vault with other totals.
    pub open spec fn with_totals(self, total_tokens: u64, total_shares: u64) -> VaultState {
        VaultState { total_tokens, total_shares, ..self }
    }
}

impl Default for VaultState {
    fn default() -> (vault: VaultState)
        ensures
            forall|i: int| 0 <= i < 32 ==> #[trigger] vault.admin@[i] == 0,
            forall|i: int| 0 <= i < 32 ==> #[trigger] vault.token_mint@[i] == 0,
            forall|i: int| 0 <= i < 32 ==> #[trigger] vault.vault_token_account@[i] == 0,
            forall|i: int| 0 <= i < 32 ==> #[trigger] vault.share_mint@[i] == 0,
            vault.total_tokens == 0,
            vault.total_shares == 0,
            vault.bump == 0,
    {
        VaultState {
            admin: Pubkey::default(),
            token_mint: Pubkey::default(),
            vault_token_account: Pubkey::default(),
            share_mint: Pubkey::default(),
            total_tokens: 0,
            total_shares: 0,
            bump: 0,
        }
    }
}

} // verus!
