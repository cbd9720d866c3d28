//! Checking the accounts of an instruction before and after creating a
//! data account.

use vstd::prelude::*;
use crate::account::{AccountState, Effect, EffectView, effects_view, invoke_view, outcome_matches, plain_invoke};
use crate::cpi::{spec_create_account_ix, system_create_account};
use crate::error::ProgramError;
use crate::key::{Pubkey, key_eq, SYSTEM_PROGRAM_ID};

verus! {

/// What the first part of the program does. Accounts: payer, account to
/// create, account to change, system program. `rent_minimum` is the
/// rent-exempt balance for `space` bytes. The program must not be the
/// system program, and the account to create must hold no lamports yet.
pub open spec fn spec_check_instruction(program_id: Pubkey, a: Seq<AccountState>, space: usize, rent_minimum: u64) -> Result<Seq<EffectView>, ProgramError> {
    if program_id == SYSTEM_PROGRAM_ID {
        Err(ProgramError::IncorrectProgramId)
    } else if a.len() < 4 {
        Err(ProgramError::NotEnoughAccountKeys)
    } else if a[1].lamports != 0 {
        Err(ProgramError::AccountAlreadyInitialized)
    } else {
        Ok(seq![invoke_view(spec_create_account_ix(a[0].key, a[1].key, rent_minimum, space as u64, program_id), seq![0usize, 1usize, 3usize])])
    }
}

/// Checks the accounts and asks the system program to create the data
/// account, rent-exempt and owned by this program. Once that invocation has
/// been carried out, `check_account_to_change` checks the third account.
pub fn process_instruction(program_id: &Pubkey, accounts: &[AccountState], _instruction: &[u8], space: usize, rent_minimum: u64) -> (r: Result<Vec<Effect>, ProgramError>)
    ensures
        outcome_matches(r, spec_check_instruction(*program_id, accounts@, space, rent_minimum)),
{
    let system_id: Pubkey = SYSTEM_PROGRAM_ID;
    if key_eq(program_id, &system_id) {
        return Err(ProgramError::IncorrectProgramId);
    }
    if accounts.len() < 4 {
        return Err(ProgramError::NotEnoughAccountKeys);
    }
    let payer = &accounts[0];
    let account_to_create = &accounts[1];
    if account_to_create.lamports != 0 {
        return Err(ProgramError::AccountAlreadyInitialized);
    }
    let create_tnx = system_create_account(&payer.key, &account_to_create.key, rent_minimum, space as u64, program_id);
    let mut effects: Vec<Effect> = Vec::new();
    effects.push(plain_invoke(create_tnx, &[0usize, 1usize, 3usize]));
    proof {
        assert(effects_view(effects) =~= spec_check_instruction(*program_id, accounts@, space, rent_minimum).unwrap());
    }
    Ok(effects)
}

/// The account to change, as it stands after the creation, must already
/// hold lamports and belong to this program.
pub open spec fn spec_check_account_to_change(program_id: Pubkey, account: AccountState) -> Result<(), ProgramError> {
    if account.lamports == 0 {
        Err(ProgramError::UninitializedAccount)
    } else if account.owner != program_id {
        Err(ProgramError::IncorrectProgramId)
    } else {
        Ok(())
    }
}

/// Checks that the account to change is initialized and owned by this program.
pub fn check_account_to_change(program_id: &Pubkey, account_to_change: &AccountState) -> (r: Result<(), ProgramError>)
    ensures
        r == spec_check_account_to_change(*program_id, *account_to_change),
{
    if account_to_change.lamports == 0 {
        return Err(ProgramError::UninitializedAccount);
    }
    if !key_eq(&account_to_change.owner, program_id) {
        return Err(ProgramError::IncorrectProgramId);
    }
    Ok(())
}

} // verus!
