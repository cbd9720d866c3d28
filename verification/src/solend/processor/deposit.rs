//! Depositing tokens into a reserve.

use vstd::prelude::*;
use crate::account::{AccountState, Effect, EffectView, effects_view, invoke_view, outcome_matches, plain_invoke};
use crate::cpi::{spec_token_amount_ix, token_transfer};
use crate::error::ProgramError;
use crate::key::{Pubkey, key_eq, SPL_TOKEN_PROGRAM_ID};
use crate::solend::error::{LendError, lerr};
use crate::solend::math::{ray_mul, ray_div, spec_ray_mul, ray_mul_defined, ray_div_defined, ray_mul_is_defined, ray_div_is_defined};
use crate::solend::state::{Market, Obligations, Reserve, spec_decode_market, spec_decode_reserve,
    spec_decode_obligations};

verus! {

/// The reserve's borrows in token units: scaled borrows times the borrow index.
pub open spec fn reserve_borrows(r: Reserve) -> int {
    spec_ray_mul(r.total_scaled_borrows, r.borrow_index)
}

/// The reserve's deposits in token units: scaled deposits times the liquidity index.
pub open spec fn reserve_deposits(r: Reserve) -> int {
    spec_ray_mul(r.total_scaled_deposits, r.liquidity_index)
}

/// The arithmetic of bringing a reserve up to `now` is defined: the elapsed
/// time fits, both index products and the utilization ratio can be taken.
pub open spec fn accrue_defined(r: Reserve, now: i64) -> bool {
    now > r.last_update ==> {
        let borrows = reserve_borrows(r);
        let deposits = reserve_deposits(r);
        let liquidity = if deposits >= borrows { deposits - borrows } else { 0 };
        &&& now - r.last_update <= i64::MAX
        &&& ray_mul_defined(r.total_scaled_borrows, r.borrow_index)
        &&& ray_mul_defined(r.total_scaled_deposits, r.liquidity_index)
        &&& borrows != 0 ==> ray_div_defined(borrows as u128,
                (if liquidity + borrows > u128::MAX { u128::MAX as int } else { liquidity + borrows }) as u128)
    }
}

/// A reserve brought up to `now`. Only an empty reserve (no deposits and no
/// borrows in token units) moves its update time forward; otherwise, and
/// when `now` is not later than the last update, it stays as it was.
pub open spec fn spec_accrue(r: Reserve, now: i64) -> Reserve {
    if now > r.last_update && reserve_deposits(r) == 0 && reserve_borrows(r) == 0 {
        Reserve { last_update: now, ..r }
    } else {
        r
    }
}

/// Brings the reserve's state up to the time `now_ts`.
pub fn accure_reserve(reserve: &mut Reserve, now_ts: i64) -> (r: Result<(), ProgramError>)
    requires
        accrue_defined(*old(reserve), now_ts),
    ensures
        r == Ok::<(), ProgramError>(()),
        *final(reserve) == spec_accrue(*old(reserve), now_ts),
{
    if now_ts <= reserve.last_update {
        return Ok(());
    }
    let _dt = (now_ts - reserve.last_update) as u64;
    let borrows = ray_mul(reserve.total_scaled_borrows, reserve.borrow_index);
    let deposits = ray_mul(reserve.total_scaled_deposits, reserve.liquidity_index);
    let liquidity = deposits.saturating_sub(borrows);
    if liquidity == 0 && borrows == 0 {
        reserve.last_update = now_ts;
        return Ok(());
    }
    let _utilization_rate: u128 = if borrows == 0 { 0 } else { ray_div(borrows, liquidity.saturating_add(borrows)) };
    Ok(())
}

/// Whether bringing the reserve up to `now` is defined.
pub fn accrue_is_defined(reserve: &Reserve, now: i64) -> (r: bool)
    ensures
        r == accrue_defined(*reserve, now),
{
    if now <= reserve.last_update {
        return true;
    }
    if (now as i128) - (reserve.last_update as i128) > i64::MAX as i128 {
        return false;
    }
    if !ray_mul_is_defined(reserve.total_scaled_borrows, reserve.borrow_index)
        || !ray_mul_is_defined(reserve.total_scaled_deposits, reserve.liquidity_index) {
        return false;
    }
    let borrows = ray_mul(reserve.total_scaled_borrows, reserve.borrow_index);
    let deposits = ray_mul(reserve.total_scaled_deposits, reserve.liquidity_index);
    let liquidity = deposits.saturating_sub(borrows);
    borrows == 0 || ray_div_is_defined(borrows, liquidity.saturating_add(borrows))
}

/// The checks that a deposit passes before it accrues the reserve: enough
/// accounts, the user signs, the program owns the market, the reserve and
/// the obligation, the market can be read and is not paused, the reserve
/// can be read and belongs to the market, and the obligation can be read.
pub open spec fn deposit_reaches_accrual(program_id: Pubkey, a: Seq<AccountState>) -> bool {
    &&& a.len() >= 8
    &&& a[4].is_signer
    &&& a[0].owner == program_id && a[1].owner == program_id && a[2].owner == program_id
    &&& spec_decode_market(a[0].data@) matches Some(m) && !m.paused
    &&& spec_decode_reserve(a[1].data@) matches Some(r) && r.market == a[0].key
    &&& spec_decode_obligations(a[2].data@) is Some
}

/// The arithmetic of a deposit is defined where the request reaches it:
/// the reserve can be accrued to `now`.
pub open spec fn deposit_defined(program_id: Pubkey, a: Seq<AccountState>, now: i64) -> bool {
    deposit_reaches_accrual(program_id, a) ==> accrue_defined(spec_decode_reserve(a[1].data@).unwrap(), now)
}

/// Whether a deposit's arithmetic is defined.
pub fn deposit_is_defined(program_id: &Pubkey, accounts: &[AccountState], now: i64) -> (r: bool)
    ensures
        r == deposit_defined(*program_id, accounts@, now),
{
    if accounts.len() < 8 || !accounts[4].is_signer || !key_eq(&accounts[0].owner, program_id)
        || !key_eq(&accounts[1].owner, program_id) || !key_eq(&accounts[2].owner, program_id) {
        return true;
    }
    match Market::try_from_slice(accounts[0].data.as_slice()) {
        Some(m) => if m.paused {
            return true;
        },
        None => return true,
    }
    if Obligations::try_from_slice(accounts[2].data.as_slice()).is_none() {
        return true;
    }
    match Reserve::try_from_slice(accounts[1].data.as_slice()) {
        Some(r) => if key_eq(&r.market, &accounts[0].key) {
            accrue_is_defined(&r, now)
        } else {
            true
        },
        None => true,
    }
}

/// What a deposit does. Accounts: market, reserve, obligation, vault, user,
/// user's token account, token program, oracle. The transfer names the user
/// as source and authority and the reserve's vault as destination.
pub open spec fn spec_deposit(program_id: Pubkey, a: Seq<AccountState>, amount: u64) -> Result<Seq<EffectView>, ProgramError> {
    if a.len() < 8 {
        Err(ProgramError::NotEnoughAccountKeys)
    } else if !a[4].is_signer {
        Err(lerr(LendError::Unauthorized))
    } else if a[0].owner != program_id || a[1].owner != program_id || a[2].owner != program_id {
        Err(lerr(LendError::MismatchedAccounts))
    } else {
        match spec_decode_market(a[0].data@) {
            None => Err(ProgramError::InvalidAccountData),
            Some(m) => if m.paused {
                Err(lerr(LendError::Paused))
            } else {
                match spec_decode_reserve(a[1].data@) {
                    None => Err(ProgramError::InvalidAccountData),
                    Some(reserve) => if reserve.market != a[0].key {
                        Err(lerr(LendError::MismatchedAccounts))
                    } else if spec_decode_obligations(a[2].data@) is None {
                        Err(ProgramError::InvalidAccountData)
                    } else if a[6].key != SPL_TOKEN_PROGRAM_ID {
                        Err(ProgramError::IncorrectProgramId)
                    } else {
                        Ok(seq![invoke_view(
                            spec_token_amount_ix(a[6].key, 3, a[4].key, reserve.vault, a[4].key, Seq::empty(), amount),
                            seq![5usize, 3usize, 4usize, 6usize],
                        )])
                    },
                }
            },
        }
    }
}

/// Checks the accounts, accrues the reserve to `now` (the clock's unix
/// time) and moves `amount` into the reserve's vault.
pub fn process(program_id: &Pubkey, accounts: &[AccountState], amount: u64, now: i64) -> (r: Result<Vec<Effect>, ProgramError>)
    requires
        deposit_defined(*program_id, accounts@, now),
    ensures
        outcome_matches(r, spec_deposit(*program_id, accounts@, amount)),
{
    if accounts.len() < 8 {
        return Err(ProgramError::NotEnoughAccountKeys);
    }
    let market_account = &accounts[0];
    let reserve_account = &accounts[1];
    let obligation_account = &accounts[2];
    let user_account = &accounts[4];
    let token_program = &accounts[6];
    if !user_account.is_signer {
        return Err(ProgramError::from(LendError::Unauthorized));
    }
    if !key_eq(&market_account.owner, program_id) || !key_eq(&reserve_account.owner, program_id)
        || !key_eq(&obligation_account.owner, program_id) {
        return Err(ProgramError::from(LendError::MismatchedAccounts));
    }
    let market = match Market::try_from_slice(market_account.data.as_slice()) {
        Some(m) => m,
        None => return Err(ProgramError::InvalidAccountData),
    };
    if market.paused {
        return Err(ProgramError::from(LendError::Paused));
    }
    let mut reserve = match Reserve::try_from_slice(reserve_account.data.as_slice()) {
        Some(r) => r,
        None => return Err(ProgramError::InvalidAccountData),
    };
    if !key_eq(&reserve.market, &market_account.key) {
        return Err(ProgramError::from(LendError::MismatchedAccounts));
    }
    let _obligation = match Obligations::try_from_slice(obligation_account.data.as_slice()) {
        Some(o) => o,
        None => return Err(ProgramError::InvalidAccountData),
    };
    let _ = accure_reserve(&mut reserve, now);
    let transfer_instruction = match token_transfer(&token_program.key, &user_account.key, &reserve.vault, &user_account.key, &Vec::new(), amount) {
        Some(ix) => ix,
        None => return Err(ProgramError::IncorrectProgramId),
    };
    let mut effects: Vec<Effect> = Vec::new();
    effects.push(plain_invoke(transfer_instruction, &[5usize, 3usize, 4usize, 6usize]));
    proof {
        assert(effects_view(effects) =~= spec_deposit(*program_id, accounts@, amount).unwrap());
    }
    Ok(effects)
}

} // verus!
