//! Token operations: creating a mint with metadata, minting a non-fungible
//! token, minting fungible tokens and transferring them.

pub mod create;
pub mod mint_nft;
pub mod mint_spl;
pub mod processor;
pub mod transfer;
