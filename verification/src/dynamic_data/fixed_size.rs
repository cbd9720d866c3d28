//! Creating a data account of the size the instruction asks for.

use vstd::prelude::*;
use crate::account::{AccountState, Effect, EffectView, effects_view, outcome_matches, unchecked_invoke};
use crate::codec::{enc_u64, dec_u64, lemma_fixed_width_roundtrips, push_u64, read_u64};
use crate::cpi::{spec_create_account_ix, system_create_account};
use crate::error::ProgramError;
use crate::key::Pubkey;

verus! {

/// The requested size of the account, in bytes.
#[derive(Debug, Clone, Copy, PartialEq, Eq)]
pub struct Size {
    pub size: u64,
}

/// Reading instruction bytes: exactly the size, little-endian.
pub open spec fn spec_decode_size(b: Seq<u8>) -> Option<Size> {
    if b.len() == 8 { Some(Size { size: dec_u64(b) }) } else { None }
}

/// Reading a size's bytes gives it back.
pub proof fn lemma_size_roundtrip(s: Size)
    ensures
        spec_decode_size(enc_u64(s.size)) == Some(s),
{
    lemma_fixed_width_roundtrips();
}

impl Size {
    /// The instruction's bytes.
    pub fn to_bytes(&self) -> (r: Vec<u8>)
        ensures
            r@ == enc_u64(self.size),
    {
        let mut out: Vec<u8> = Vec::new();
        push_u64(&mut out, self.size);
        assert(out@ =~= enc_u64(self.size));
        out
    }

    /// Reads the size from instruction data.
    pub fn try_from_slice(data: &[u8]) -> (r: Option<Size>)
        ensures
            r == spec_decode_size(data@),
    {
        if data.len() != 8 {
            return None;
        }
        assert(data@.subrange(0, 8) =~= data@);
        Some(Size { size: read_u64(data, 0) })
    }
}

/// What the program does. Accounts: payer, account to create, system
/// program. `rent_minimum` is the rent-exempt balance for the requested
/// size.
pub open spec fn spec_fixed_size_process(program_id: Pubkey, a: Seq<AccountState>, data: Seq<u8>, rent_minimum: u64) -> Result<Seq<EffectView>, ProgramError> {
    if a.len() < 3 {
        Err(ProgramError::NotEnoughAccountKeys)
    } else {
        match spec_decode_size(data) {
            None => Err(ProgramError::BorshIoError),
            Some(s) => Ok(seq![EffectView::InvokeUnchecked { instruction: spec_create_account_ix(a[0].key, a[1].key, rent_minimum, s.size, program_id), accounts:
                seq![0usize, 1usize, 2usize] }]),
        }
    }
}

/// Creates an account of the requested size, owned by this program.
pub fn process_instruction(program_id: &Pubkey, accounts: &[AccountState], instruction_data: &[u8], rent_minimum: u64) -> (r: Result<Vec<Effect>, ProgramError>)
    ensures
        outcome_matches(r, spec_fixed_size_process(*program_id, accounts@, instruction_data@, rent_minimum)),
{
    if accounts.len() < 3 {
        return Err(ProgramError::NotEnoughAccountKeys);
    }
    let signer = &accounts[0];
    let account_to_create = &accounts[1];
    let instruction = match Size::try_from_slice(instruction_data) {
        Some(s) => s,
        None => return Err(ProgramError::BorshIoError),
    };
    let txn = system_create_account(&signer.key, &account_to_create.key, rent_minimum, instruction.size, program_id);
    let mut effects: Vec<Effect> = Vec::new();
    effects.push(unchecked_invoke(txn, &[0usize, 1usize, 2usize]));
    proof {
        assert(effects_view(effects) =~= spec_fixed_size_process(*program_id, accounts@, instruction_data@, rent_minimum).unwrap());
    }
    Ok(effects)
}

} // verus!
