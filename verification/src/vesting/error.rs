//! Errors of the vesting program.

use vstd::prelude::*;
use crate::error::ProgramError;

verus! {

#[derive(Debug, Clone, Copy, PartialEq, Eq, Structural)]
pub enum VestingError {
    InvalidInstruction,
    Unauthorised,
    InvalidAccountData,
    InvalidSeeds,
    NothingClaimable,
    AlreadyFullyClaimed,
    EscrowNotEmpty,
    NotRentExempt,
    MathOverFlow,
    /// The schedule's times are out of order or the total is zero.
    InvalidSchedule,
}

/// The error's number: its position in the declaration.
pub open spec fn vesting_error_code(e: VestingError) -> u32 {
    match e {
        VestingError::InvalidInstruction => 0,
        VestingError::Unauthorised => 1,
        VestingError::InvalidAccountData => 2,
        VestingError::InvalidSeeds => 3,
        VestingError::NothingClaimable => 4,
        VestingError::AlreadyFullyClaimed => 5,
        VestingError::EscrowNotEmpty => 6,
        VestingError::NotRentExempt => 7,
        VestingError::MathOverFlow => 8,
        VestingError::InvalidSchedule => 9,
    }
}

impl VestingError {
    /// The error's number.
    pub fn code(&self) -> (r: u32)
        ensures
            r == vesting_error_code(*self),
    {
        match self {
            VestingError::InvalidInstruction => 0,
            VestingError::Unauthorised => 1,
            VestingError::InvalidAccountData => 2,
            VestingError::InvalidSeeds => 3,
            VestingError::NothingClaimable => 4,
            VestingError::AlreadyFullyClaimed => 5,
            VestingError::EscrowNotEmpty => 6,
            VestingError::NotRentExempt => 7,
            VestingError::MathOverFlow => 8,
            VestingError::InvalidSchedule => 9,
        }
    }
}

impl From<VestingError> for ProgramError {
    fn from(value: VestingError) -> (r: ProgramError) {
        ProgramError::Custom(value.code())
    }
}

impl vstd::std_specs::convert::FromSpecImpl<VestingError> for ProgramError {
    open spec fn obeys_from_spec() -> bool {
        true
    }

    open spec fn from_spec(v: VestingError) -> ProgramError {
        ProgramError::Custom(vesting_error_code(v))
    }
}

} // verus!
