//! A staking pool: pool set-up, stake checks and overflow-checked arithmetic.

pub mod error;
pub mod instruction;
pub mod processor;
pub mod state;
pub mod utils;
