//! Closing a data account: its lamports go to the recipient and its data
//! is zeroed.

use vstd::prelude::*;
use crate::account::{AccountState, Effect, EffectView, effects_view, outcome_matches};
use crate::error::ProgramError;
use crate::key::{Pubkey, key_eq};

verus! {

/// The program's one instruction.
#[derive(Debug, Clone, Copy, PartialEq, Eq)]
pub enum Instruction {
    CloseAccount,
}

/// Reading instruction bytes: the single tag byte `0`.
pub open spec fn spec_decode_close(b: Seq<u8>) -> Option<Instruction> {
    if b.len() == 1 && b[0] == 0 { Some(Instruction::CloseAccount) } else { None }
}

impl Instruction {
    /// The instruction's bytes: its tag.
    pub fn to_bytes(&self) -> (r: Vec<u8>)
        ensures
            spec_decode_close(r@) == Some(*self),
    {
        let mut out: Vec<u8> = Vec::new();
        out.push(0u8);
        out
    }

    /// Reads the instruction from instruction data.
    pub fn try_from_slice(data: &[u8]) -> (r: Option<Instruction>)
        ensures
            r == spec_decode_close(data@),
    {
        if data.len() == 1 && data[0] == 0 { Some(Instruction::CloseAccount) } else { None }
    }
}

/// Closing, once its checks pass, can be carried out: the recipient and
/// the closed account are different accounts and the recipient's balance
/// can take the closed account's lamports.
pub open spec fn close_defined(program_id: Pubkey, a: Seq<AccountState>) -> bool {
    (a.len() >= 3 && a[1].owner == program_id && a[2].is_signer && a[2].key == a[0].key) ==> {
        &&& a[0].key != a[1].key
        &&& a[0].lamports + a[1].lamports <= u64::MAX
    }
}

/// Whether closing can credit the recipient.
pub fn close_is_defined(program_id: &Pubkey, accounts: &[AccountState]) -> (r: bool)
    ensures
        r == close_defined(*program_id, accounts@),
{
    if accounts.len() < 3 || !key_eq(&accounts[1].owner, program_id) || !accounts[2].is_signer
        || !key_eq(&accounts[2].key, &accounts[0].key) {
        return true;
    }
    !key_eq(&accounts[0].key, &accounts[1].key) && accounts[0].lamports <= u64::MAX - accounts[1].lamports
}

/// What closing does. Accounts: recipient, account to close, signer. The
/// account must belong to this program and the signer must sign and be the
/// recipient.
pub open spec fn spec_process_account(program_id: Pubkey, a: Seq<AccountState>, data: Seq<u8>) -> Result<Seq<EffectView>, ProgramError> {
    if spec_decode_close(data) is None {
        Err(ProgramError::BorshIoError)
    } else if a.len() < 3 {
        Err(ProgramError::NotEnoughAccountKeys)
    } else if a[1].owner != program_id {
        Err(ProgramError::IncorrectProgramId)
    } else if !a[2].is_signer {
        Err(ProgramError::MissingRequiredSignature)
    } else if a[2].key != a[0].key {
        Err(ProgramError::IllegalOwner)
    } else {
        Ok(seq![
            EffectView::SetLamports { account: 0, lamports: (a[0].lamports + a[1].lamports) as u64 },
            EffectView::SetLamports { account: 1, lamports: 0 },
            EffectView::ZeroData { account: 1 },
        ])
    }
}

/// Closes the account: moves all its lamports to the recipient and zeroes
/// its data.
pub fn process_account(program_id: &Pubkey, accounts: &[AccountState], instruction: &[u8]) -> (r: Result<Vec<Effect>, ProgramError>)
    requires
        close_defined(*program_id, accounts@),
    ensures
        outcome_matches(r, spec_process_account(*program_id, accounts@, instruction@)),
{
    let instructions = match Instruction::try_from_slice(instruction) {
        Some(i) => i,
        None => return Err(ProgramError::BorshIoError),
    };
    if accounts.len() < 3 {
        return Err(ProgramError::NotEnoughAccountKeys);
    }
    let recipient = &accounts[0];
    let account_to_delete = &accounts[1];
    let signer = &accounts[2];
    match instructions {
        Instruction::CloseAccount => {
            if !key_eq(&account_to_delete.owner, program_id) {
                return Err(ProgramError::IncorrectProgramId);
            }
            if !signer.is_signer {
                return Err(ProgramError::MissingRequiredSignature);
            }
            if !key_eq(&signer.key, &recipient.key) {
                return Err(ProgramError::IllegalOwner);
            }
            let mut effects: Vec<Effect> = Vec::new();
            effects.push(Effect::SetLamports { account: 0, lamports: recipient.lamports + account_to_delete.lamports });
            effects.push(Effect::SetLamports { account: 1, lamports: 0 });
            effects.push(Effect::ZeroData { account: 1 });
            proof {
                assert(effects_view(effects) =~= spec_process_account(*program_id, accounts@, instruction@).unwrap());
            }
            Ok(effects)
        },
    }
}

/// Closing moves lamports without creating or destroying any: the
/// recipient gains exactly what the closed account held, which ends with
/// none.
pub proof fn lemma_close_conserves(program_id: Pubkey, a: Seq<AccountState>, data: Seq<u8>)
    requires
        close_defined(program_id, a),
        spec_process_account(program_id, a, data) is Ok,
    ensures
        spec_process_account(program_id, a, data) matches Ok(e)
            && e[0] matches EffectView::SetLamports { lamports: p, .. }
            && e[1] matches EffectView::SetLamports { lamports: q, .. }
            && p + q == a[0].lamports + a[1].lamports && q == 0,
{
}

} // verus!
