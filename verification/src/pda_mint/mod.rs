//! A non-fungible token whose mint authority is a program address: the
//! authority's record, the mint with its metadata, and minting.

pub mod create;
pub mod mint;
pub mod pda_authority;
pub mod processor;
