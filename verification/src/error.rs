use vstd::prelude::*;

verus! {

/// What the vault's own rules refuse.
#[derive(Clone, Copy, Debug, PartialEq, Eq, Structural)]
pub enum VaultError {
    /// Amount must be greater than zero.
    ZeroAmount,
    /// Shares would be zero: the deposit is too small.
    SharesTooSmall,
    /// Withdraw amount too small.
    WithdrawTooSmall,
    /// Vault is empty.
    VaultEmpty,
    /// Math overflow.
    MathOverflow,
    /// Only the admin can call this.
    Unauthorized,
    /// The lower tick must be less than the upper one.
    InvalidTickRange,
}

/// The accounts that an error can be about, by their place in an instruction.
#[derive(Clone, Copy, Debug, PartialEq, Eq, Structural)]
pub enum Role {
    Admin,
    ClmmProgram,
    PersonalPosition,
    PoolState,
    PositionNftAccount,
    PositionNftMint,
    ShareMint,
    TickArrayLower,
    TickArrayUpper,
    TokenVault0,
    TokenVault1,
    User,
    UserShareAccount,
    UserTokenAccount,
    VaultState,
    VaultTokenAccount,
    VaultWsolAccount,
}

/// Why an instruction is refused: one of the vault's own rules, or a
/// constraint on the accounts it was given.
#[derive(Clone, Copy, Debug, PartialEq, Eq, Structural)]
pub enum Error {
    Vault(VaultError),
    /// The account must be writable.
    ConstraintMut(Role),
    /// A condition between accounts does not hold.
    ConstraintRaw(Role),
    /// The account is not at the address that its seeds derive.
    ConstraintSeeds(Role),
    /// The account is not the one program it has to be.
    ConstraintAddress(Role),
    /// The token account holds another token.
    ConstraintTokenMint,
    /// The token account belongs to someone else.
    ConstraintTokenOwner,
    /// The mint is not controlled by the vault.
    ConstraintMintMintAuthority,
    /// Whoever pays for a new account cannot be made into it.
    TryingToInitPayerAsProgramAccount,
    /// No bump derives an address from the account's seeds.
    NoViableBump(Role),
}

impl Role {
    /// The name of the account as clients know it.
    pub open spec fn spec_name(self) -> Seq<char> {
        match self {
            Role::Admin => "admin"@,
            Role::ClmmProgram => "clmm_program"@,
            Role::PersonalPosition => "personal_position"@,
            Role::PoolState => "pool_state"@,
            Role::PositionNftAccount => "position_nft_account"@,
            Role::PositionNftMint => "position_nft_mint"@,
            Role::ShareMint => "share_mint"@,
            Role::TickArrayLower => "tick_array_lower"@,
            Role::TickArrayUpper => "tick_array_upper"@,
            Role::TokenVault0 => "token_vault_0"@,
            Role::TokenVault1 => "token_vault_1"@,
            Role::User => "user"@,
            Role::UserShareAccount => "user_share_account"@,
            Role::UserTokenAccount => "user_token_account"@,
            Role::VaultState => "vault_state"@,
            Role::VaultTokenAccount => "vault_token_account"@,
            Role::VaultWsolAccount => "vault_wsol_account"@,
        }
    }

    /// The name of the account as clients know it.
    pub fn name(self) -> (name: &'static str)
        ensures
            name@ == self.spec_name(),
    {
        match self {
            Role::Admin => "admin",
            Role::ClmmProgram => "clmm_program",
            Role::PersonalPosition => "personal_position",
            Role::PoolState => "pool_state",
            Role::PositionNftAccount => "position_nft_account",
            Role::PositionNftMint => "position_nft_mint",
            Role::ShareMint => "share_mint",
            Role::TickArrayLower => "tick_array_lower",
            Role::TickArrayUpper => "tick_array_upper",
            Role::TokenVault0 => "token_vault_0",
            Role::TokenVault1 => "token_vault_1",
            Role::User => "user",
            Role::UserShareAccount => "user_share_account",
            Role::UserTokenAccount => "user_token_account",
            Role::VaultState => "vault_state",
            Role::VaultTokenAccount => "vault_token_account",
            Role::VaultWsolAccount => "vault_wsol_account",
        }
    }
}

} // verus!
