//! Accounts holding one value, at a fresh address or a program address.

use vstd::prelude::*;
use crate::error::ProgramError;

verus! {

/// Space the framework reserves for a value account: an 8-byte account
/// discriminator and the value.
pub const VALUE_ACCOUNT_SPACE: usize = 16;

/// A data account holding a value.
#[derive(Debug, Clone, Copy, PartialEq, Eq)]
pub struct DataAccount {
    pub value: u64,
}

/// An account at a program address holding a value.
#[derive(Debug, Clone, Copy, PartialEq, Eq)]
pub struct PdaAccount {
    pub value: u64,
}

/// Stores `value` in the newly created data account.
pub fn create_data_account(data_account: &mut DataAccount, value: u64) -> (r: Result<(), ProgramError>)
    ensures
        r is Ok,
        final(data_account).value == value,
{
    data_account.value = value;
    Ok(())
}

/// Stores `value` in the newly created program-address account.
pub fn create_pda_account(pda_account: &mut PdaAccount, value: u64) -> (r: Result<(), ProgramError>)
    ensures
        r is Ok,
        final(pda_account).value == value,
{
    pda_account.value = value;
    Ok(())
}

} // verus!
