//! Withdrawing deposited tokens from a reserve.

use vstd::prelude::*;
use crate::account::{AccountState, Effect, EffectView, effects_view, invoke_view, outcome_matches, plain_invoke, write_data};
use crate::cpi::{spec_token_amount_ix, token_transfer};
use crate::error::ProgramError;
use crate::key::{Pubkey, is_zero_key, key_eq, SPL_TOKEN_PROGRAM_ID};
use crate::solend::error::{LendError, lerr};
use crate::solend::math::{RAY, saturated_product, saturating_mul_u128, is_floor_quotient, in_ray_units, lemma_scaled_amount_is_floor, lemma_floor_division};
use crate::solend::processor::borrow::scaled_amount;
use crate::solend::state::{lemma_reserve_roundtrip, Market, Obligations, Reserve, spec_decode_market, spec_decode_reserve,
    spec_decode_obligations, spec_encode_reserve, spec_encode_obligations, spec_upsert, upsert_defined,
    lemma_upserted_is_spec, lemma_upsert_exists, lemma_upsert_keeps_slots_well_formed, lemma_obligations_roundtrip,
    slots_well_formed};

verus! {

/// The checks that a withdrawal passes before its arithmetic: enough
/// accounts, the user signs, the program owns the market, the reserve and
/// the obligation, the market is not paused, and the reserve and the
/// obligation can be read.
pub open spec fn withdraw_reaches_arithmetic(program_id: Pubkey, a: Seq<AccountState>) -> bool {
    &&& a.len() >= 8
    &&& a[4].is_signer
    &&& a[0].owner == program_id && a[1].owner == program_id && a[2].owner == program_id
    &&& spec_decode_market(a[0].data@) matches Some(m) && !m.paused
    &&& spec_decode_reserve(a[1].data@) is Some
    &&& spec_decode_obligations(a[2].data@) is Some
}

/// The arithmetic of a withdrawal is defined where the request reaches it:
/// the liquidity index is non-zero, the scaled amount can be negated as a
/// signed value and the collateral update does not overflow.
pub open spec fn withdraw_defined(program_id: Pubkey, a: Seq<AccountState>, amount: u64) -> bool {
    withdraw_reaches_arithmetic(program_id, a) ==> {
        let r = spec_decode_reserve(a[1].data@).unwrap();
        let o = spec_decode_obligations(a[2].data@).unwrap();
        &&& r.liquidity_index != 0
        &&& (scaled_amount(amount, r.liquidity_index) as u128) as i128 != i128::MIN
        &&& upsert_defined(o.collaterals@, a[1].key, -((scaled_amount(amount, r.liquidity_index) as u128) as i128) as i128, true)
    }
}

/// Whether the arithmetic of the request is defined.
pub fn withdraw_is_defined(program_id: &Pubkey, accounts: &[AccountState], amount: u64) -> (r: bool)
    ensures
        r == withdraw_defined(*program_id, accounts@, amount),
{
    if accounts.len() < 8 || !accounts[4].is_signer || !key_eq(&accounts[0].owner, program_id)
        || !key_eq(&accounts[1].owner, program_id) || !key_eq(&accounts[2].owner, program_id) {
        return true;
    }
    match Market::try_from_slice(accounts[0].data.as_slice()) {
        Some(m) => if m.paused {
            return true;
        },
        None => return true,
    }
    let (reserve, obligation) = match (Reserve::try_from_slice(accounts[1].data.as_slice()),
        Obligations::try_from_slice(accounts[2].data.as_slice())) {
        (Some(r), Some(o)) => (r, o),
        _ => return true,
    };
    if reserve.liquidity_index == 0 {
        return false;
    }
    let scaled = saturating_mul_u128(amount as u128, RAY) / reserve.liquidity_index;
    let signed = #[verifier::truncate] (scaled as i128);
    if signed == i128::MIN {
        return false;
    }
    Obligations::upsert_fits(&obligation.collaterals, accounts[1].key, -signed, true)
}

/// What a withdrawal does. Accounts: market, reserve, obligation, vault,
/// user, user's token account, token program, oracle. The transfer moves
/// the amount from the reserve's vault to the user's token account under
/// the program's authority.
pub open spec fn spec_withdraw(program_id: Pubkey, a: Seq<AccountState>, amount: u64) -> Result<Seq<EffectView>, ProgramError> {
    if a.len() < 8 {
        Err(ProgramError::NotEnoughAccountKeys)
    } else if !a[4].is_signer {
        Err(lerr(LendError::Unauthorized))
    } else if a[0].owner != program_id || a[1].owner != program_id || a[2].owner != program_id {
        Err(lerr(LendError::MismatchedAccounts))
    } else {
        match spec_decode_market(a[0].data@) {
            None => Err(ProgramError::InvalidAccountData),
            Some(m) => if m.paused {
                Err(lerr(LendError::Paused))
            } else {
                match (spec_decode_reserve(a[1].data@), spec_decode_obligations(a[2].data@)) {
                    (None, _) => Err(ProgramError::InvalidAccountData),
                    (Some(_), None) => Err(ProgramError::InvalidAccountData),
                    (Some(reserve), Some(ob)) => if a[6].key != SPL_TOKEN_PROGRAM_ID {
                        Err(ProgramError::IncorrectProgramId)
                    } else {
                        let scaled = scaled_amount(amount, reserve.liquidity_index) as u128;
                        let collaterals = spec_upsert(ob.collaterals, a[1].key, -(scaled as i128) as i128, true);
                        let total = if reserve.total_scaled_deposits >= scaled { (reserve.total_scaled_deposits - scaled) as u128 } else { 0 };
                        Ok(seq![
                            invoke_view(spec_token_amount_ix(a[6].key, 3, reserve.vault, a[5].key, program_id, Seq::empty(), amount),
                                seq![3usize, 5usize, 6usize]),
                            EffectView::WriteData { account: 1, bytes: spec_encode_reserve(Reserve { total_scaled_deposits: total, ..reserve }) },
                            EffectView::WriteData { account: 2, bytes: spec_encode_obligations(Obligations { collaterals, ..ob }) },
                        ])
                    },
                }
            },
        }
    }
}

/// Moves `amount` from the reserve's vault to the user and reduces the
/// user's collateral position and the reserve's scaled deposits accordingly.
pub fn process(program_id: &Pubkey, accounts: &[AccountState], amount: u64, _max_slippage_bps: u16) -> (r: Result<Vec<Effect>, ProgramError>)
    requires
        withdraw_defined(*program_id, accounts@, amount),
    ensures
        outcome_matches(r, spec_withdraw(*program_id, accounts@, amount)),
{
    if accounts.len() < 8 {
        return Err(ProgramError::NotEnoughAccountKeys);
    }
    let market_account = &accounts[0];
    let reserve_account = &accounts[1];
    let obligation_account = &accounts[2];
    let user_account = &accounts[4];
    let user_ata_account = &accounts[5];
    let token_program = &accounts[6];
    if !user_account.is_signer {
        return Err(ProgramError::from(LendError::Unauthorized));
    }
    if !key_eq(&market_account.owner, program_id) || !key_eq(&reserve_account.owner, program_id)
        || !key_eq(&obligation_account.owner, program_id) {
        return Err(ProgramError::from(LendError::MismatchedAccounts));
    }
    let market = match Market::try_from_slice(market_account.data.as_slice()) {
        Some(m) => m,
        None => return Err(ProgramError::InvalidAccountData),
    };
    if market.paused {
        return Err(ProgramError::from(LendError::Paused));
    }
    let mut reserve = match Reserve::try_from_slice(reserve_account.data.as_slice()) {
        Some(r) => r,
        None => return Err(ProgramError::InvalidAccountData),
    };
    let mut obligation = match Obligations::try_from_slice(obligation_account.data.as_slice()) {
        Some(o) => o,
        None => return Err(ProgramError::InvalidAccountData),
    };
    let scaled_delta = saturating_mul_u128(amount as u128, RAY) / reserve.liquidity_index;
    let signed = #[verifier::truncate] (scaled_delta as i128);
    let delta = -signed;
    let ghost before = obligation.collaterals;
    Obligations::upsert_position(&mut obligation.collaterals, reserve_account.key, delta, true);
    proof {
        lemma_upserted_is_spec(before, reserve_account.key, delta, true, obligation.collaterals);
    }
    let instruction = match token_transfer(&token_program.key, &reserve.vault, &user_ata_account.key, program_id, &Vec::new(), amount) {
        Some(ix) => ix,
        None => return Err(ProgramError::IncorrectProgramId),
    };
    let mut effects: Vec<Effect> = Vec::new();
    effects.push(plain_invoke(instruction, &[3usize, 5usize, 6usize]));
    reserve.total_scaled_deposits = reserve.total_scaled_deposits.saturating_sub(scaled_delta);
    effects.push(write_data(1, reserve.to_bytes()));
    effects.push(write_data(2, obligation.to_bytes()));
    proof {
        assert(effects_view(effects) =~= spec_withdraw(*program_id, accounts@, amount).unwrap());
    }
    Ok(effects)
}

/// A withdrawal keeps the user's collateral list well formed: empty slots hold
/// nothing, used slots hold a positive amount, and no reserve appears
/// twice. The other list is written back unchanged. (A reserve account at
/// the all-zero address is left out: its entry would look empty.)
pub proof fn lemma_withdraw_keeps_positions_well_formed(program_id: Pubkey, a: Seq<AccountState>, amount: u64)
    requires
        withdraw_defined(program_id, a, amount),
        spec_withdraw(program_id, a, amount) is Ok,
        slots_well_formed(spec_decode_obligations(a[2].data@).unwrap().collaterals),
        !is_zero_key(a[1].key),
    ensures
        spec_withdraw(program_id, a, amount) matches Ok(e) && e[2] matches EffectView::WriteData { bytes, .. }
            && spec_decode_obligations(bytes) matches Some(o) && slots_well_formed(o.collaterals)
            && o.borrows == spec_decode_obligations(a[2].data@).unwrap().borrows,
{
    let ob = spec_decode_obligations(a[2].data@).unwrap();
    let r = spec_decode_reserve(a[1].data@).unwrap();
    let delta = -((scaled_amount(amount, r.liquidity_index) as u128) as i128) as i128;
    lemma_upsert_exists(ob.collaterals, a[1].key, delta, true);
    let updated = spec_upsert(ob.collaterals, a[1].key, delta, true);
    lemma_upsert_keeps_slots_well_formed(ob.collaterals, a[1].key, delta, true, updated);
    lemma_obligations_roundtrip(Obligations { collaterals: updated, ..ob });
}


/// A withdrawal takes off the reserve's scaled deposits the withdrawn
/// amount in ray units divided by the liquidity index, rounded down, for
/// any non-zero index (stopping at zero), and takes the same scaled amount
/// off the user's collateral position in that reserve; nothing else in the
/// reserve changes.
pub proof fn lemma_withdraw_removes_amount_over_index(program_id: Pubkey, a: Seq<AccountState>, amount: u64)
    requires
        spec_withdraw(program_id, a, amount) is Ok,
        spec_decode_reserve(a[1].data@).unwrap().liquidity_index != 0,
    ensures
        ({
            let r = spec_decode_reserve(a[1].data@).unwrap();
            let ob = spec_decode_obligations(a[2].data@).unwrap();
            let p = in_ray_units(amount);
            spec_withdraw(program_id, a, amount).unwrap()[1] matches EffectView::WriteData { account, bytes }
                && (account == 1
                && (spec_decode_reserve(bytes) matches Some(r2)
                && (r2 == (Reserve { total_scaled_deposits: r2.total_scaled_deposits, ..r })
                && exists|s: int| #[trigger] is_floor_quotient(p, r.liquidity_index as int, s)
                    && r2.total_scaled_deposits == (if r.total_scaled_deposits >= s { r.total_scaled_deposits - s } else { 0 })
                    && spec_withdraw(program_id, a, amount).unwrap()[2] == (EffectView::WriteData { account: 2, bytes: spec_encode_obligations(
                        Obligations { collaterals: spec_upsert(ob.collaterals, a[1].key, -(s as i128) as i128, true), ..ob }) }))))
        }),
{
    let r = spec_decode_reserve(a[1].data@).unwrap();
    lemma_scaled_amount_is_floor(amount, r.liquidity_index);
    let s = scaled_amount(amount, r.liquidity_index);
    assert(0 <= s <= u128::MAX) by {
        lemma_floor_division(saturated_product(amount as u128, RAY), r.liquidity_index as int);
        vstd::arithmetic::div_mod::lemma_div_is_ordered_by_denominator(saturated_product(amount as u128, RAY), 1, r.liquidity_index as int);
    }
    let total = if r.total_scaled_deposits >= (s as u128) { (r.total_scaled_deposits - (s as u128)) as u128 } else { 0 };
    lemma_reserve_roundtrip(Reserve { total_scaled_deposits: total, ..r });
}

} // verus!
