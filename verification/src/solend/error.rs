//! Errors of the lending program.

use vstd::prelude::*;
use crate::error::ProgramError;

verus! {

#[derive(Debug, Clone, Copy, PartialEq, Eq, Structural)]
pub enum LendError {
    InvalidInstruction,
    Unauthorized,
    MathOverflow,
    HealthFactorTooLow,
    InsufficientLiquidity,
    Paused,
    MismatchedAccounts,
    OracleInvalid,
    NotImplemented,
    /// The market account does not hold the rent-exempt minimum.
    NotRentExempt,
}

/// The error's number: its position in the declaration.
pub open spec fn lend_error_code(e: LendError) -> u32 {
    match e {
        LendError::InvalidInstruction => 0,
        LendError::Unauthorized => 1,
        LendError::MathOverflow => 2,
        LendError::HealthFactorTooLow => 3,
        LendError::InsufficientLiquidity => 4,
        LendError::Paused => 5,
        LendError::MismatchedAccounts => 6,
        LendError::OracleInvalid => 7,
        LendError::NotImplemented => 8,
        LendError::NotRentExempt => 9,
    }
}

impl LendError {
    pub fn code(&self) -> (r: u32)
        ensures
            r == lend_error_code(*self),
    {
        match self {
            LendError::InvalidInstruction => 0,
            LendError::Unauthorized => 1,
            LendError::MathOverflow => 2,
            LendError::HealthFactorTooLow => 3,
            LendError::InsufficientLiquidity => 4,
            LendError::Paused => 5,
            LendError::MismatchedAccounts => 6,
            LendError::OracleInvalid => 7,
            LendError::NotImplemented => 8,
            LendError::NotRentExempt => 9,
        }
    }
}

impl From<LendError> for ProgramError {
    fn from(value: LendError) -> (r: ProgramError) {
        ProgramError::Custom(value.code())
    }
}

impl vstd::std_specs::convert::FromSpecImpl<LendError> for ProgramError {
    open spec fn obeys_from_spec() -> bool {
        true
    }

    open spec fn from_spec(v: LendError) -> ProgramError {
        ProgramError::Custom(lend_error_code(v))
    }
}

pub open spec fn lerr(e: LendError) -> ProgramError {
    ProgramError::Custom(lend_error_code(e))
}

} // verus!
