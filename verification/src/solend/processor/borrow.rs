//! Paying back borrowed tokens.

use vstd::prelude::*;
use crate::account::{AccountState, Effect, EffectView, effects_view, outcome_matches, unchecked_invoke, write_data};
use crate::cpi::{spec_token_amount_ix, token_transfer};
use crate::error::ProgramError;
use crate::key::{Pubkey, is_zero_key, key_eq, SPL_TOKEN_PROGRAM_ID};
use crate::solend::error::{LendError, lerr};
use crate::solend::math::{RAY, saturated_product, saturating_mul_u128, is_floor_quotient, in_ray_units, lemma_scaled_amount_is_floor, lemma_floor_division};
use crate::solend::state::{lemma_reserve_roundtrip, Market, Obligations, Reserve, spec_decode_market, spec_decode_reserve,
    spec_decode_obligations, spec_encode_reserve, spec_encode_obligations, spec_upsert, upsert_defined,
    lemma_upserted_is_spec, lemma_upsert_exists, lemma_upsert_keeps_slots_well_formed, lemma_obligations_roundtrip,
    slots_well_formed};

verus! {

/// A token amount in scaled units of an index: `amount * RAY / index`
/// rounded down, the product clamped at `u128::MAX`.
pub open spec fn scaled_amount(amount: u64, index: u128) -> int {
    saturated_product(amount as u128, RAY) / (index as int)
}

/// The checks that a repayment passes before its arithmetic: enough
/// accounts, the user signs, the program owns the market, the reserve and
/// the obligation, all three can be read, and the token program is the
/// token program.
pub open spec fn repay_reaches_arithmetic(program_id: Pubkey, a: Seq<AccountState>) -> bool {
    &&& a.len() >= 7
    &&& a[4].is_signer
    &&& a[0].owner == program_id && a[1].owner == program_id && a[2].owner == program_id
    &&& spec_decode_market(a[0].data@) is Some
    &&& spec_decode_reserve(a[1].data@) is Some
    &&& spec_decode_obligations(a[2].data@) is Some
    &&& a[6].key == SPL_TOKEN_PROGRAM_ID
}

/// The arithmetic of a repayment is defined where the request reaches it:
/// the borrow index is non-zero, the scaled amount can be negated as a
/// signed value and the obligation update does not overflow.
pub open spec fn repay_defined(program_id: Pubkey, a: Seq<AccountState>, amount: u64) -> bool {
    repay_reaches_arithmetic(program_id, a) ==> {
        let r = spec_decode_reserve(a[1].data@).unwrap();
        let o = spec_decode_obligations(a[2].data@).unwrap();
        &&& r.borrow_index != 0
        &&& (scaled_amount(amount, r.borrow_index) as u128) as i128 != i128::MIN
        &&& upsert_defined(o.borrows@, a[1].key, -((scaled_amount(amount, r.borrow_index) as u128) as i128) as i128, false)
    }
}

/// Whether the arithmetic of the request is defined.
pub fn repay_is_defined(program_id: &Pubkey, accounts: &[AccountState], amount: u64) -> (r: bool)
    ensures
        r == repay_defined(*program_id, accounts@, amount),
{
    let token_id = SPL_TOKEN_PROGRAM_ID;
    if accounts.len() < 7 || !accounts[4].is_signer || !key_eq(&accounts[0].owner, program_id)
        || !key_eq(&accounts[1].owner, program_id) || !key_eq(&accounts[2].owner, program_id)
        || !key_eq(&accounts[6].key, &token_id) {
        return true;
    }
    if Market::try_from_slice(accounts[0].data.as_slice()).is_none() {
        return true;
    }
    let (reserve, obligation) = match (Reserve::try_from_slice(accounts[1].data.as_slice()),
        Obligations::try_from_slice(accounts[2].data.as_slice())) {
        (Some(r), Some(o)) => (r, o),
        _ => return true,
    };
    if reserve.borrow_index == 0 {
        return false;
    }
    let scaled = saturating_mul_u128(amount as u128, RAY) / reserve.borrow_index;
    let signed = #[verifier::truncate] (scaled as i128);
    if signed == i128::MIN {
        return false;
    }
    Obligations::upsert_fits(&obligation.borrows, accounts[1].key, -signed, false)
}

/// What a repayment does. Accounts: market, reserve, obligation, vault,
/// user, user's token account, token program.
pub open spec fn spec_repay(program_id: Pubkey, a: Seq<AccountState>, amount: u64) -> Result<Seq<EffectView>, ProgramError> {
    if a.len() < 7 {
        Err(ProgramError::NotEnoughAccountKeys)
    } else if !a[4].is_signer {
        Err(lerr(LendError::Unauthorized))
    } else if a[0].owner != program_id || a[1].owner != program_id || a[2].owner != program_id {
        Err(lerr(LendError::MismatchedAccounts))
    } else {
        match (spec_decode_market(a[0].data@), spec_decode_reserve(a[1].data@), spec_decode_obligations(a[2].data@)) {
            (None, _, _) => Err(ProgramError::InvalidAccountData),
            (Some(_), None, _) => Err(ProgramError::InvalidAccountData),
            (Some(_), Some(_), None) => Err(ProgramError::InvalidAccountData),
            (Some(_), Some(reserve), Some(ob)) => if a[6].key != SPL_TOKEN_PROGRAM_ID {
                Err(ProgramError::IncorrectProgramId)
            } else {
                let scaled = scaled_amount(amount, reserve.borrow_index) as u128;
                let borrows = spec_upsert(ob.borrows, a[1].key, -(scaled as i128) as i128, false);
                let total = if reserve.total_scaled_borrows >= scaled { (reserve.total_scaled_borrows - scaled) as u128 } else { 0 };
                Ok(seq![
                    EffectView::InvokeUnchecked { instruction: spec_token_amount_ix(a[6].key, 3, a[5].key, reserve.vault, a[4].key, Seq::empty(), amount), accounts: seq![6usize, 4usize, 5usize, 3usize] },
                    EffectView::WriteData { account: 1, bytes: spec_encode_reserve(Reserve { total_scaled_borrows: total, ..reserve }) },
                    EffectView::WriteData { account: 2, bytes: spec_encode_obligations(Obligations { borrows, ..ob }) },
                ])
            },
        }
    }
}

/// Moves `amount` from the user to the reserve's vault and reduces the
/// user's borrow position and the reserve's scaled borrows accordingly.
pub fn process(program_id: &Pubkey, accounts: &[AccountState], amount: u64) -> (r: Result<Vec<Effect>, ProgramError>)
    requires
        repay_defined(*program_id, accounts@, amount),
    ensures
        outcome_matches(r, spec_repay(*program_id, accounts@, amount)),
{
    if accounts.len() < 7 {
        return Err(ProgramError::NotEnoughAccountKeys);
    }
    let market_account = &accounts[0];
    let borrow_reserve_account = &accounts[1];
    let obligation_account = &accounts[2];
    let user_account = &accounts[4];
    let user_ata_account = &accounts[5];
    let token_program = &accounts[6];
    if !user_account.is_signer {
        return Err(ProgramError::from(LendError::Unauthorized));
    }
    if !key_eq(&market_account.owner, program_id) || !key_eq(&borrow_reserve_account.owner, program_id)
        || !key_eq(&obligation_account.owner, program_id) {
        return Err(ProgramError::from(LendError::MismatchedAccounts));
    }
    let _market = match Market::try_from_slice(market_account.data.as_slice()) {
        Some(m) => m,
        None => return Err(ProgramError::InvalidAccountData),
    };
    let mut reserve = match Reserve::try_from_slice(borrow_reserve_account.data.as_slice()) {
        Some(r) => r,
        None => return Err(ProgramError::InvalidAccountData),
    };
    let mut obligation = match Obligations::try_from_slice(obligation_account.data.as_slice()) {
        Some(o) => o,
        None => return Err(ProgramError::InvalidAccountData),
    };
    let transfer_instruction = match token_transfer(&token_program.key, &user_ata_account.key, &reserve.vault, &user_account.key, &Vec::new(), amount) {
        Some(ix) => ix,
        None => return Err(ProgramError::IncorrectProgramId),
    };
    let mut effects: Vec<Effect> = Vec::new();
    effects.push(unchecked_invoke(transfer_instruction, &[6usize, 4usize, 5usize, 3usize]));
    let scaled_delta = saturating_mul_u128(amount as u128, RAY) / reserve.borrow_index;
    let signed = #[verifier::truncate] (scaled_delta as i128);
    let delta = -signed;
    let ghost before = obligation.borrows;
    Obligations::upsert_position(&mut obligation.borrows, borrow_reserve_account.key, delta, false);
    proof {
        lemma_upserted_is_spec(before, borrow_reserve_account.key, delta, false, obligation.borrows);
    }
    reserve.total_scaled_borrows = reserve.total_scaled_borrows.saturating_sub(scaled_delta);
    effects.push(write_data(1, reserve.to_bytes()));
    effects.push(write_data(2, obligation.to_bytes()));
    proof {
        assert(effects_view(effects) =~= spec_repay(*program_id, accounts@, amount).unwrap());
    }
    Ok(effects)
}

/// A repayment keeps the user's borrow list well formed: empty slots hold
/// nothing, used slots hold a positive amount, and no reserve appears
/// twice. The other list is written back unchanged. (A reserve account at
/// the all-zero address is left out: its entry would look empty.)
pub proof fn lemma_repay_keeps_positions_well_formed(program_id: Pubkey, a: Seq<AccountState>, amount: u64)
    requires
        repay_defined(program_id, a, amount),
        spec_repay(program_id, a, amount) is Ok,
        slots_well_formed(spec_decode_obligations(a[2].data@).unwrap().borrows),
        !is_zero_key(a[1].key),
    ensures
        spec_repay(program_id, a, amount) matches Ok(e) && e[2] matches EffectView::WriteData { bytes, .. }
            && spec_decode_obligations(bytes) matches Some(o) && slots_well_formed(o.borrows)
            && o.collaterals == spec_decode_obligations(a[2].data@).unwrap().collaterals,
{
    let ob = spec_decode_obligations(a[2].data@).unwrap();
    let r = spec_decode_reserve(a[1].data@).unwrap();
    let delta = -((scaled_amount(amount, r.borrow_index) as u128) as i128) as i128;
    lemma_upsert_exists(ob.borrows, a[1].key, delta, false);
    let updated = spec_upsert(ob.borrows, a[1].key, delta, false);
    lemma_upsert_keeps_slots_well_formed(ob.borrows, a[1].key, delta, false, updated);
    lemma_obligations_roundtrip(Obligations { borrows: updated, ..ob });
}


/// A repayment takes off the reserve's scaled borrows the repaid amount in
/// ray units divided by the borrow index, rounded down, for any non-zero
/// index (stopping at zero), and takes the same scaled amount off the
/// user's borrow position in that reserve; nothing else in the reserve
/// changes.
pub proof fn lemma_repay_removes_amount_over_index(program_id: Pubkey, a: Seq<AccountState>, amount: u64)
    requires
        spec_repay(program_id, a, amount) is Ok,
        spec_decode_reserve(a[1].data@).unwrap().borrow_index != 0,
    ensures
        ({
            let r = spec_decode_reserve(a[1].data@).unwrap();
            let ob = spec_decode_obligations(a[2].data@).unwrap();
            let p = in_ray_units(amount);
            spec_repay(program_id, a, amount).unwrap()[1] matches EffectView::WriteData { account, bytes }
                && (account == 1
                && (spec_decode_reserve(bytes) matches Some(r2)
                && (r2 == (Reserve { total_scaled_borrows: r2.total_scaled_borrows, ..r })
                && exists|s: int| #[trigger] is_floor_quotient(p, r.borrow_index as int, s)
                    && r2.total_scaled_borrows == (if r.total_scaled_borrows >= s { r.total_scaled_borrows - s } else { 0 })
                    && spec_repay(program_id, a, amount).unwrap()[2] == (EffectView::WriteData { account: 2, bytes: spec_encode_obligations(
                        Obligations { borrows: spec_upsert(ob.borrows, a[1].key, -(s as i128) as i128, false), ..ob }) }))))
        }),
{
    let r = spec_decode_reserve(a[1].data@).unwrap();
    lemma_scaled_amount_is_floor(amount, r.borrow_index);
    let s = scaled_amount(amount, r.borrow_index);
    assert(0 <= s <= u128::MAX) by {
        lemma_floor_division(saturated_product(amount as u128, RAY), r.borrow_index as int);
        vstd::arithmetic::div_mod::lemma_div_is_ordered_by_denominator(saturated_product(amount as u128, RAY), 1, r.borrow_index as int);
    }
    let total = if r.total_scaled_borrows >= (s as u128) { (r.total_scaled_borrows - (s as u128)) as u128 } else { 0 };
    lemma_reserve_roundtrip(Reserve { total_scaled_borrows: total, ..r });
}

} // verus!
