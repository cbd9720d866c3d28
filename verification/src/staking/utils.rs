//! Overflow-checked arithmetic of the staking program.

use vstd::prelude::*;
use crate::error::ProgramError;
use crate::staking::error::{StakeError, serr};

verus! {

/// `a + b`, or the overflow error when the sum exceeds `u64::MAX`.
pub open spec fn spec_checked_add(a: u64, b: u64) -> Result<u64, ProgramError> {
    if a + b <= u64::MAX { Ok((a + b) as u64) } else { Err(serr(StakeError::MathOverFlow)) }
}

/// `a - b`, or the overflow error when `b > a`.
pub open spec fn spec_checked_sub(a: u64, b: u64) -> Result<u64, ProgramError> {
    if b <= a { Ok((a - b) as u64) } else { Err(serr(StakeError::MathOverFlow)) }
}

/// `a * b`, or the overflow error when the product exceeds `u64::MAX`.
pub open spec fn spec_checked_mul(a: u64, b: u64) -> Result<u64, ProgramError> {
    if a * b <= u64::MAX { Ok((a * b) as u64) } else { Err(serr(StakeError::MathOverFlow)) }
}

/// `a * b` for a signed `b`: the overflow error when `b` is negative or the
/// product exceeds `u64::MAX`.
pub open spec fn spec_checked_mul_u64_i64(a: u64, b: i64) -> Result<u64, ProgramError> {
    if b >= 0 && a * b <= u64::MAX { Ok((a * b) as u64) } else { Err(serr(StakeError::MathOverFlow)) }
}

/// Adds, reporting overflow as an error.
pub fn checked_add(a: u64, b: u64) -> (r: Result<u64, ProgramError>)
    ensures
        r == spec_checked_add(a, b),
{
    match a.checked_add(b) {
        Some(v) => Ok(v),
        None => Err(ProgramError::from(StakeError::MathOverFlow)),
    }
}

/// Subtracts, reporting underflow as an error.
pub fn checked_sub(a: u64, b: u64) -> (r: Result<u64, ProgramError>)
    ensures
        r == spec_checked_sub(a, b),
{
    match a.checked_sub(b) {
        Some(v) => Ok(v),
        None => Err(ProgramError::from(StakeError::MathOverFlow)),
    }
}

/// Multiplies, reporting overflow as an error.
pub fn checked_mul(a: u64, b: u64) -> (r: Result<u64, ProgramError>)
    ensures
        r == spec_checked_mul(a, b),
{
    match a.checked_mul(b) {
        Some(v) => Ok(v),
        None => Err(ProgramError::from(StakeError::MathOverFlow)),
    }
}

/// Multiplies by a signed factor, reporting a negative factor or overflow
/// as an error.
pub fn checked_mul_u64_i64(a: u64, b: i64) -> (r: Result<u64, ProgramError>)
    ensures
        r == spec_checked_mul_u64_i64(a, b),
{
    if b < 0 {
        return Err(ProgramError::from(StakeError::MathOverFlow));
    }
    let b_u = b as u64;
    match a.checked_mul(b_u) {
        Some(v) => Ok(v),
        None => Err(ProgramError::from(StakeError::MathOverFlow)),
    }
}

/// Subtraction undoes addition: where `a + b` succeeds, taking `b` away
/// from the sum succeeds and gives `a`.
pub proof fn lemma_checked_sub_undoes_add(a: u64, b: u64)
    requires
        spec_checked_add(a, b) is Ok,
    ensures
        spec_checked_sub(spec_checked_add(a, b)->Ok_0, b) == Ok::<u64, ProgramError>(a),
{
}

/// Addition and multiplication do not depend on the order of the operands.
pub proof fn lemma_checked_commutative(a: u64, b: u64)
    ensures
        spec_checked_add(a, b) == spec_checked_add(b, a),
        spec_checked_mul(a, b) == spec_checked_mul(b, a),
{
    assert(a * b == b * a) by (nonlinear_arith);
}

/// For a non-negative multiplier the signed product agrees with the
/// unsigned one.
pub proof fn lemma_signed_mul_agrees(a: u64, b: i64)
    requires
        b >= 0,
    ensures
        spec_checked_mul_u64_i64(a, b) == spec_checked_mul(a, b as u64),
{
}

} // verus!
