//! Errors of the staking program.

use vstd::prelude::*;
use crate::error::ProgramError;

verus! {

#[derive(Debug, Clone, Copy, PartialEq, Eq, Structural)]
pub enum StakeError {
    InValidInstruction,
    Unauthorized,
    InsufficientBalance,
    MathOverFlow,
}

/// The error's number: its position in the declaration.
pub open spec fn stake_error_code(e: StakeError) -> u32 {
    match e {
        StakeError::InValidInstruction => 0,
        StakeError::Unauthorized => 1,
        StakeError::InsufficientBalance => 2,
        StakeError::MathOverFlow => 3,
    }
}

/// The program error a staking error is reported as.
pub open spec fn serr(e: StakeError) -> ProgramError {
    ProgramError::Custom(stake_error_code(e))
}

impl StakeError {
    /// The error's number.
    pub fn code(&self) -> (r: u32)
        ensures
            r == stake_error_code(*self),
    {
        match self {
            StakeError::InValidInstruction => 0,
            StakeError::Unauthorized => 1,
            StakeError::InsufficientBalance => 2,
            StakeError::MathOverFlow => 3,
        }
    }
}

impl From<StakeError> for ProgramError {
    fn from(value: StakeError) -> (r: ProgramError) {
        ProgramError::Custom(value.code())
    }
}

impl vstd::std_specs::convert::FromSpecImpl<StakeError> for ProgramError {
    open spec fn obeys_from_spec() -> bool {
        true
    }

    open spec fn from_spec(v: StakeError) -> ProgramError {
        serr(v)
    }
}

} // verus!
