//! Storing a record in an account at the program address of its signer.

use vstd::prelude::*;
use crate::account::{AccountState, Effect, EffectView, effects_view, outcome_matches, signed_invoke, write_data};
use crate::address::{program_address, seed_list_view, signer_seeds_with_bump, try_find_program_address};
use crate::codec::{enc_u32, dec_u32, lemma_fixed_width_roundtrips, push_u32, read_u32, key_bytes, bytes_vec};
use crate::cpi::{spec_create_account_ix, system_create_account};
use crate::error::ProgramError;
use crate::key::{Pubkey, key_eq};

verus! {

/// Seed of the record addresses: `b"pda"`.
pub const RECORD_SEED: [u8; 3] = [112, 100, 97];

/// A student's record.
#[derive(Debug, Clone, Copy, PartialEq, Eq)]
pub struct Data {
    pub roll_no: u32,
    pub score: u32,
}

pub open spec fn spec_encode_data(d: Data) -> Seq<u8> {
    enc_u32(d.roll_no) + enc_u32(d.score)
}

/// Reading a record: exactly its two numbers, little-endian.
pub open spec fn spec_decode_data(b: Seq<u8>) -> Option<Data> {
    if b.len() == 8 {
        Some(Data { roll_no: dec_u32(b.subrange(0, 4)), score: dec_u32(b.subrange(4, 8)) })
    } else {
        None
    }
}

/// Reading a record's bytes gives it back.
pub proof fn lemma_data_roundtrip(d: Data)
    ensures
        spec_decode_data(spec_encode_data(d)) == Some(d),
{
    lemma_fixed_width_roundtrips();
    let b = spec_encode_data(d);
    assert(b.subrange(0, 4) =~= enc_u32(d.roll_no));
    assert(b.subrange(4, 8) =~= enc_u32(d.score));
}

impl Data {
    /// The record's bytes.
    pub fn to_bytes(&self) -> (r: Vec<u8>)
        ensures
            r@ == spec_encode_data(*self),
    {
        let mut out: Vec<u8> = Vec::new();
        push_u32(&mut out, self.roll_no);
        push_u32(&mut out, self.score);
        assert(out@ =~= spec_encode_data(*self));
        out
    }

    /// Reads a record from instruction data.
    pub fn try_from_slice(data: &[u8]) -> (r: Option<Data>)
        ensures
            r == spec_decode_data(data@),
    {
        if data.len() != 8 {
            return None;
        }
        Some(Data { roll_no: read_u32(data, 0), score: read_u32(data, 4) })
    }
}

/// The seeds of a signer's record address.
pub open spec fn record_seeds(signer: Pubkey) -> Seq<Seq<u8>> {
    seq![RECORD_SEED@, signer@]
}

/// What the program does. Accounts: signer, record account, system program.
/// `rent_minimum` is the rent-exempt balance for as many bytes as the
/// instruction data has. The record account is created at the signer's
/// program address, then the record is written into it.
pub open spec fn spec_pda_process(program_id: Pubkey, a: Seq<AccountState>, data: Seq<u8>, rent_minimum: u64) -> Result<Seq<EffectView>, ProgramError> {
    if a.len() < 3 {
        Err(ProgramError::NotEnoughAccountKeys)
    } else {
        match spec_decode_data(data) {
            None => Err(ProgramError::BorshIoError),
            Some(d) => match program_address(record_seeds(a[0].key), program_id@) {
                None => Err(ProgramError::InvalidSeeds),
                Some((pda, bump)) => if a[1].key@ != pda {
                    Err(ProgramError::InvalidArgument)
                } else {
                    Ok(seq![
                        EffectView::Invoke {
                            instruction: spec_create_account_ix(a[0].key, a[1].key, rent_minimum, data.len() as u64, program_id),
                            accounts: seq![0usize, 1usize, 2usize],
                            signer_seeds: seq![record_seeds(a[0].key).push(seq![bump])],
                        },
                        EffectView::WriteData { account: 1, bytes: spec_encode_data(d) },
                    ])
                },
            },
        }
    }
}

/// Creates the signer's record account and stores the record in it.
pub fn process_instruction(program_id: &Pubkey, accounts: &[AccountState], instruction_data: &[u8], rent_minimum: u64) -> (r: Result<Vec<Effect>, ProgramError>)
    ensures
        outcome_matches(r, spec_pda_process(*program_id, accounts@, instruction_data@, rent_minimum)),
{
    if accounts.len() < 3 {
        return Err(ProgramError::NotEnoughAccountKeys);
    }
    let signer = &accounts[0];
    let pda_account = &accounts[1];
    let data = match Data::try_from_slice(instruction_data) {
        Some(d) => d,
        None => return Err(ProgramError::BorshIoError),
    };
    let mut seeds: Vec<Vec<u8>> = Vec::new();
    let seed = RECORD_SEED;
    seeds.push(bytes_vec(seed.as_slice()));
    seeds.push(key_bytes(&signer.key));
    assert(seed_list_view(seeds) =~= record_seeds(signer.key));
    let (pda, bump) = match try_find_program_address(&seeds, program_id) {
        Some(found) => found,
        None => return Err(ProgramError::InvalidSeeds),
    };
    if !key_eq(&pda_account.key, &pda) {
        return Err(ProgramError::InvalidArgument);
    }
    let data_len = instruction_data.len();
    let instruction = system_create_account(&signer.key, &pda, rent_minimum, data_len as u64, program_id);
    let signer_seeds = signer_seeds_with_bump(seeds, bump);
    let mut effects: Vec<Effect> = Vec::new();
    effects.push(signed_invoke(instruction, &[0usize, 1usize, 2usize], signer_seeds));
    effects.push(write_data(1, data.to_bytes()));
    proof {
        assert(effects_view(effects) =~= spec_pda_process(*program_id, accounts@, instruction_data@, rent_minimum).unwrap());
    }
    Ok(effects)
}

} // verus!
