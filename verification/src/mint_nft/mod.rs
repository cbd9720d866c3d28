//! Creating a non-fungible token: its mint with metadata, then minting the
//! single token and its master edition.

pub mod create;
pub mod mint;
