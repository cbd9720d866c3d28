//! Verified logic of a collection of Solana on-chain programs: a lending
//! market, a constant-product AMM, token vesting, staking, lamport
//! transfers, account management and token minting helpers.
//!
//! Every program is split in two: the decisions (argument decoding,
//! account validation, state transitions, arithmetic and the list of
//! cross-program invocations to perform) live here and are verified;
//! the runtime glue that reads `AccountInfo`s and performs the
//! invocations lives in the companion application crate.

pub mod account;
pub mod address;
pub mod anchor;
pub mod check_instruction;
pub mod cp_amm;
pub mod codec;
pub mod cpi;
pub mod cpi_programs;
pub mod create_daccount;
pub mod create_spl_token;
pub mod delete_account;
pub mod determine_rent;
pub mod dynamic_data;
pub mod error;
pub mod key;
pub mod mint_nft;
pub mod pda;
pub mod pda_mint;
pub mod solend;
pub mod staking;
pub mod transfer_sol;
pub mod transfer_token;
pub mod vesting;
