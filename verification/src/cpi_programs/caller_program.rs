//! Invoking the counter program on a counter account.

use vstd::prelude::*;
use crate::account::{AccountMeta, AccountState, Effect, EffectView, Instruction, InstructionView, effects_view,
    invoke_view, meta_writable, outcome_matches, plain_invoke};
use crate::error::ProgramError;
use crate::key::Pubkey;

verus! {

/// What the program does. Accounts: caller, counter account, counter
/// program. It invokes the counter program with the counter account
/// (writable) and no instruction data.
pub open spec fn spec_caller_process(a: Seq<AccountState>) -> Result<Seq<EffectView>, ProgramError> {
    if a.len() < 3 {
        Err(ProgramError::NotEnoughAccountKeys)
    } else {
        Ok(seq![invoke_view(
            InstructionView { program_id: a[2].key, accounts: seq![meta_writable(a[1].key, false)], data: Seq::empty() },
            seq![1usize, 2usize],
        )])
    }
}

/// Invokes the counter program on the counter account.
pub fn process_instruction(_program_id: &Pubkey, accounts: &[AccountState], _instruction_data: &[u8]) -> (r: Result<Vec<Effect>, ProgramError>)
    ensures
        outcome_matches(r, spec_caller_process(accounts@)),
{
    if accounts.len() < 3 {
        return Err(ProgramError::NotEnoughAccountKeys);
    }
    let counter_account = &accounts[1];
    let program_b = &accounts[2];
    let mut metas: Vec<AccountMeta> = Vec::new();
    metas.push(AccountMeta { pubkey: counter_account.key, is_signer: false, is_writable: true });
    let ix = Instruction { program_id: program_b.key, accounts: metas, data: Vec::new() };
    let mut effects: Vec<Effect> = Vec::new();
    effects.push(plain_invoke(ix, &[1usize, 2usize]));
    proof {
        assert(effects_view(effects) =~= spec_caller_process(accounts@).unwrap());
    }
    Ok(effects)
}

} // verus!
