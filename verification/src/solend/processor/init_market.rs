//! Creating a market.

use vstd::prelude::*;
use crate::account::{AccountState, Effect, EffectView, effects_view, outcome_matches, write_data};
use crate::error::ProgramError;
use crate::key::{Pubkey, key_eq};
use crate::solend::error::{LendError, lerr};
use crate::solend::state::{Market, spec_encode_market};

verus! {

/// What market creation does. Accounts: market, admin, system program.
/// `rent_minimum` is the rent-exempt balance for the market account's size.
pub open spec fn spec_init_market(program_id: Pubkey, a: Seq<AccountState>, oracle_program_id: Pubkey, rent_minimum: u64) -> Result<Seq<EffectView>, ProgramError> {
    if a.len() < 3 {
        Err(ProgramError::NotEnoughAccountKeys)
    } else if !a[1].is_signer {
        Err(lerr(LendError::Unauthorized))
    } else if a[0].owner != program_id {
        Err(lerr(LendError::MismatchedAccounts))
    } else if a[0].data@.len() < Market::LEN {
        Err(ProgramError::BorshIoError)
    } else if a[0].lamports < rent_minimum {
        Err(lerr(LendError::NotRentExempt))
    } else {
        let market = Market { admin: a[1].key, oracle_program_id, bump: 0, paused: false };
        Ok(seq![EffectView::WriteData { account: 0, bytes: spec_encode_market(market) }])
    }
}

/// Records a new market administered by the signer, unpaused, and checks
/// that the market account is rent-exempt.
pub fn process(program_id: &Pubkey, accounts: &[AccountState], oracle_program_id: Pubkey, rent_minimum: u64) -> (r: Result<Vec<Effect>, ProgramError>)
    ensures
        outcome_matches(r, spec_init_market(*program_id, accounts@, oracle_program_id, rent_minimum)),
{
    if accounts.len() < 3 {
        return Err(ProgramError::NotEnoughAccountKeys);
    }
    let market = &accounts[0];
    let admin = &accounts[1];
    if !admin.is_signer {
        return Err(ProgramError::from(LendError::Unauthorized));
    }
    if !key_eq(&market.owner, program_id) {
        return Err(ProgramError::from(LendError::MismatchedAccounts));
    }
    let market_init_data = Market { admin: admin.key, oracle_program_id, bump: 0, paused: false };
    if market.data.len() < Market::LEN {
        return Err(ProgramError::BorshIoError);
    }
    if market.lamports < rent_minimum {
        return Err(ProgramError::from(LendError::NotRentExempt));
    }
    let mut effects: Vec<Effect> = Vec::new();
    effects.push(write_data(0, market_init_data.to_bytes()));
    proof {
        assert(effects_view(effects) =~= spec_init_market(*program_id, accounts@, oracle_program_id, rent_minimum).unwrap());
    }
    Ok(effects)
}

} // verus!
