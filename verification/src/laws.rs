//! What holds of the vault as a whole.

pub mod access;
pub mod constraints;
pub mod course;
pub mod deposits;
pub mod founding;
pub mod ledger;
pub mod opening;
pub mod pool;
pub mod positions;
pub mod steps;
pub mod withdrawals;
