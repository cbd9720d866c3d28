//! Linear token vesting with a cliff, held in escrow by a program address.

pub mod error;
pub mod instruction;
pub mod processor;
pub mod state;
pub mod util;
