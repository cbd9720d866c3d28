//! Errors of the pool program.

use vstd::prelude::*;
use crate::error::ProgramError;

verus! {

#[derive(Debug, Clone, Copy, PartialEq, Eq, Structural)]
pub enum AmmErr {
    AlreadyInitialized,
    Uninitialized,
    InvalidVaultOwner,
    InvalidMintAuthority,
    MathOverFlow,
    TooFewLpMinted,
    SlippageExceeded,
}

/// The error's number: its position in the declaration.
pub open spec fn amm_error_code(e: AmmErr) -> u32 {
    match e {
        AmmErr::AlreadyInitialized => 0,
        AmmErr::Uninitialized => 1,
        AmmErr::InvalidVaultOwner => 2,
        AmmErr::InvalidMintAuthority => 3,
        AmmErr::MathOverFlow => 4,
        AmmErr::TooFewLpMinted => 5,
        AmmErr::SlippageExceeded => 6,
    }
}

impl AmmErr {
    pub fn code(&self) -> (r: u32)
        ensures
            r == amm_error_code(*self),
    {
        match self {
            AmmErr::AlreadyInitialized => 0,
            AmmErr::Uninitialized => 1,
            AmmErr::InvalidVaultOwner => 2,
            AmmErr::InvalidMintAuthority => 3,
            AmmErr::MathOverFlow => 4,
            AmmErr::TooFewLpMinted => 5,
            AmmErr::SlippageExceeded => 6,
        }
    }
}

impl From<AmmErr> for ProgramError {
    fn from(value: AmmErr) -> (r: ProgramError) {
        ProgramError::Custom(value.code())
    }
}

impl vstd::std_specs::convert::FromSpecImpl<AmmErr> for ProgramError {
    open spec fn obeys_from_spec() -> bool {
        true
    }

    open spec fn from_spec(v: AmmErr) -> ProgramError {
        ProgramError::Custom(amm_error_code(v))
    }
}

} // verus!
