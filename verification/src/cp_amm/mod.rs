//! A constant-product liquidity pool of two tokens with an LP mint.

pub mod error;
pub mod instruction;

pub mod state;
pub mod processor;
