//! The admin's instructions that put a vault's tokens to work in a Raydium pool.
//!
//! As elsewhere, the framework has decoded the accounts and seen to it that
//! `admin`, and the mint of a new position, have signed.

pub mod close_position;
pub mod open_position;

pub use close_position::CloseRaydiumPosition;
pub use open_position::OpenRaydiumPosition;
