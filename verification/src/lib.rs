//! A vault for one SPL token: users deposit tokens, hold shares of the pool and
//! redeem them; an admin may put the tokens to work in a Raydium position.
//!
//! [`simple_vault`] holds the entry points. Each decides on an instruction from
//! what it reads of the accounts, and hands out a [`cpi::Run`]: the calls into
//! other programs, one by one, and in the end the vault to be stored. [`laws`]
//! states what holds of the vault as a whole.

pub mod accounts;
pub mod contexts;
pub mod cpi;
pub mod error;
pub mod instructions;
pub mod laws;
pub mod pda;
pub mod pubkey;
pub mod shares;
pub mod simple_vault;
pub mod state;

pub use contexts::{Deposit, InitializeVault, Withdraw};
pub use error::{Error, Role, VaultError};
pub use instructions::{CloseRaydiumPosition, OpenRaydiumPosition};
pub use pubkey::Pubkey;
pub use state::VaultState;
