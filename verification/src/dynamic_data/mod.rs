//! Accounts sized at run time: message accounts at program addresses
//! counted by a base account, and data accounts of a requested size.

pub mod dynamic_accounts;
pub mod fixed_size;
