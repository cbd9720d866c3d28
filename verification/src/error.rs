//! The runtime error codes that the programs return.

use vstd::prelude::*;

verus! {

/// The errors a program hands back to the runtime: the built-in codes the
/// programs use and `Custom(n)` for a program's own error number `n`.
#[derive(Debug, Clone, Copy, PartialEq, Eq, Structural)]
pub enum ProgramError {
    Custom(u32),
    InvalidArgument,
    InvalidInstructionData,
    InvalidAccountData,
    AccountDataTooSmall,
    IncorrectProgramId,
    MissingRequiredSignature,
    AccountAlreadyInitialized,
    UninitializedAccount,
    NotEnoughAccountKeys,
    InvalidSeeds,
    IllegalOwner,
    BorshIoError,
}

} // verus!
