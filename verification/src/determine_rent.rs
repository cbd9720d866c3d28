//! Creating an account as large as the instruction data, funded with the
//! rent-exempt minimum for that size.

use vstd::prelude::*;
use crate::account::{AccountState, Effect, EffectView, effects_view, outcome_matches, unchecked_invoke};
use crate::cpi::{spec_create_account_ix, system_create_account};
use crate::error::ProgramError;
use crate::key::Pubkey;

verus! {

/// What the program does. Accounts: payer, account to create, system
/// program. `rent_minimum` is the rent-exempt balance for as many bytes as
/// the instruction data has.
pub open spec fn spec_process_rent(program_id: Pubkey, a: Seq<AccountState>, data: Seq<u8>, rent_minimum: u64) -> Result<Seq<EffectView>, ProgramError> {
    if a.len() < 3 {
        Err(ProgramError::NotEnoughAccountKeys)
    } else {
        Ok(seq![EffectView::InvokeUnchecked { instruction: spec_create_account_ix(a[0].key, a[1].key, rent_minimum, data.len() as u64, program_id), accounts:
            seq![0usize, 1usize, 2usize] }])
    }
}

/// Asks the system program to create the account, owned by this program.
pub fn process_rent(program_id: &Pubkey, accounts: &[AccountState], instruction_data: &[u8], rent_minimum: u64) -> (r: Result<Vec<Effect>, ProgramError>)
    ensures
        outcome_matches(r, spec_process_rent(*program_id, accounts@, instruction_data@, rent_minimum)),
{
    if accounts.len() < 3 {
        return Err(ProgramError::NotEnoughAccountKeys);
    }
    let signer = &accounts[0];
    let account_to_create = &accounts[1];
    let txn = system_create_account(&signer.key, &account_to_create.key, rent_minimum, instruction_data.len() as u64, program_id);
    let mut effects: Vec<Effect> = Vec::new();
    effects.push(unchecked_invoke(txn, &[0usize, 1usize, 2usize]));
    proof {
        assert(effects_view(effects) =~= spec_process_rent(*program_id, accounts@, instruction_data@, rent_minimum).unwrap());
    }
    Ok(effects)
}

} // verus!
