//! Adding a reserve to a market.

use vstd::prelude::*;
use crate::account::{AccountState, Effect, EffectView, effects_view, outcome_matches, write_data};
use crate::error::ProgramError;
use crate::key::{Pubkey, key_eq};
use crate::solend::error::{LendError, lerr};
use crate::solend::instruction::ReserveParams;
use crate::solend::math::RAY;
use crate::solend::state::{Market, Reserve, spec_decode_market, spec_encode_reserve};

verus! {

/// The reserve a market starts with: indices at one ray, nothing deposited
/// or borrowed, unpaused.
pub open spec fn new_reserve(market: Pubkey, mint: Pubkey, vault: Pubkey, p: ReserveParams) -> Reserve {
    Reserve {
        market,
        token_mint: mint,
        vault,
        decimals: p.decimals,
        base_rate_per_year_bps: p.base_rate_per_year_bps,
        slope1_bps: p.slope1_bps,
        slope2_bps: p.slope2_bps,
        kink_bps: p.kink_bps,
        liquidity_index: RAY,
        borrow_index: RAY,
        last_update: 0,
        total_scaled_deposits: 0,
        total_scaled_borrows: 0,
        ltv_bps: p.ltv_bps,
        liquidation_threshold_bps: p.liquidation_threshold_bps,
        liquidation_bonus_bps: p.liquidation_bonus_bps,
        bump: 0,
        paused: false,
    }
}

/// What adding a reserve does. Accounts: market, reserve, vault, mint,
/// token program, admin.
pub open spec fn spec_add_reserve(program_id: Pubkey, a: Seq<AccountState>, params: ReserveParams) -> Result<Seq<EffectView>, ProgramError> {
    if a.len() < 6 {
        Err(ProgramError::NotEnoughAccountKeys)
    } else if !a[5].is_signer {
        Err(lerr(LendError::Unauthorized))
    } else if a[0].owner != program_id || a[1].owner != program_id {
        Err(lerr(LendError::MismatchedAccounts))
    } else {
        match spec_decode_market(a[0].data@) {
            None => Err(ProgramError::InvalidAccountData),
            Some(m) => if m.admin != a[5].key {
                Err(lerr(LendError::Unauthorized))
            } else if a[1].data@.len() < Reserve::LEN {
                Err(ProgramError::BorshIoError)
            } else {
                Ok(seq![EffectView::WriteData {
                    account: 1,
                    bytes: spec_encode_reserve(new_reserve(a[0].key, a[3].key, a[2].key, params)),
                }])
            },
        }
    }
}

/// Records a new reserve of the market, when the market's admin signs.
pub fn process(program_id: &Pubkey, accounts: &[AccountState], params: ReserveParams) -> (r: Result<Vec<Effect>, ProgramError>)
    ensures
        outcome_matches(r, spec_add_reserve(*program_id, accounts@, params)),
{
    if accounts.len() < 6 {
        return Err(ProgramError::NotEnoughAccountKeys);
    }
    let market_account = &accounts[0];
    let reserve_account = &accounts[1];
    let vault_account = &accounts[2];
    let mint_account = &accounts[3];
    let admin_account = &accounts[5];
    if !admin_account.is_signer {
        return Err(ProgramError::from(LendError::Unauthorized));
    }
    if !key_eq(&market_account.owner, program_id) {
        return Err(ProgramError::from(LendError::MismatchedAccounts));
    }
    if !key_eq(&reserve_account.owner, program_id) {
        return Err(ProgramError::from(LendError::MismatchedAccounts));
    }
    let data = match Market::try_from_slice(market_account.data.as_slice()) {
        Some(m) => m,
        None => return Err(ProgramError::InvalidAccountData),
    };
    if !key_eq(&data.admin, &admin_account.key) {
        return Err(ProgramError::from(LendError::Unauthorized));
    }
    let reserve = Reserve {
        market: market_account.key,
        token_mint: mint_account.key,
        vault: vault_account.key,
        decimals: params.decimals,
        base_rate_per_year_bps: params.base_rate_per_year_bps,
        slope1_bps: params.slope1_bps,
        slope2_bps: params.slope2_bps,
        kink_bps: params.kink_bps,
        liquidity_index: RAY,
        borrow_index: RAY,
        last_update: 0,
        total_scaled_deposits: 0,
        total_scaled_borrows: 0,
        ltv_bps: params.ltv_bps,
        liquidation_threshold_bps: params.liquidation_threshold_bps,
        liquidation_bonus_bps: params.liquidation_bonus_bps,
        bump: 0,
        paused: false,
    };
    if reserve_account.data.len() < Reserve::LEN {
        return Err(ProgramError::BorshIoError);
    }
    let mut effects: Vec<Effect> = Vec::new();
    effects.push(write_data(1, reserve.to_bytes()));
    proof {
        assert(effects_view(effects) =~= spec_add_reserve(*program_id, accounts@, params).unwrap());
    }
    Ok(effects)
}

} // verus!
