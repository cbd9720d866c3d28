//! A lending market: reserves with interest indices, obligations holding
//! scaled positions.

pub mod error;
pub mod instruction;
pub mod math;
pub mod processor;
pub mod state;
