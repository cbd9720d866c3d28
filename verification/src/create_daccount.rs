//! Creating a rent-exempt data account of a fixed size.

use vstd::prelude::*;
use crate::account::{AccountState, Effect, EffectView, effects_view, invoke_view, outcome_matches, plain_invoke};
use crate::cpi::{spec_create_account_ix, system_create_account};
use crate::error::ProgramError;
use crate::key::Pubkey;

verus! {

/// Size in bytes of the accounts this program creates.
pub const ACCOUNT_SPACE: usize = 100;

/// What the program does. Accounts: payer, account to create, system
/// program. `rent_minimum` is the rent-exempt balance for `ACCOUNT_SPACE`
/// bytes.
pub open spec fn spec_create_data_account(program_id: Pubkey, a: Seq<AccountState>, rent_minimum: u64) -> Result<Seq<EffectView>, ProgramError> {
    if a.len() < 3 {
        Err(ProgramError::NotEnoughAccountKeys)
    } else {
        Ok(seq![invoke_view(spec_create_account_ix(a[0].key, a[1].key, rent_minimum, ACCOUNT_SPACE as u64, program_id),
            seq![0usize, 1usize, 2usize])])
    }
}

/// Asks the system program to create the account, owned by this program.
pub fn process_instruction(program_id: &Pubkey, accounts: &[AccountState], _instruction_data: &[u8], rent_minimum: u64) -> (r: Result<Vec<Effect>, ProgramError>)
    ensures
        outcome_matches(r, spec_create_data_account(*program_id, accounts@, rent_minimum)),
{
    if accounts.len() < 3 {
        return Err(ProgramError::NotEnoughAccountKeys);
    }
    let signer = &accounts[0];
    let account_to_create = &accounts[1];
    let space: usize = ACCOUNT_SPACE;
    let txn = system_create_account(&signer.key, &account_to_create.key, rent_minimum, space as u64, program_id);
    let mut effects: Vec<Effect> = Vec::new();
    effects.push(plain_invoke(txn, &[0usize, 1usize, 2usize]));
    proof {
        assert(effects_view(effects) =~= spec_create_data_account(*program_id, accounts@, rent_minimum).unwrap());
    }
    Ok(effects)
}

} // verus!
