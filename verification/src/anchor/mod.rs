//! The state and handlers of two framework-based programs: accounts holding
//! a value, and accounts holding a message.

pub mod accounts_on_solana;
pub mod message_account;
