//! The record at the program address that acts as mint authority.

use vstd::prelude::*;
use crate::account::{AccountState, Effect, EffectView, effects_view, outcome_matches, signed_invoke, write_data};
use crate::address::{program_address, seed_list_view, signer_seeds_with_bump, try_find_program_address};
use crate::codec::bytes_vec;
use crate::cpi::{spec_create_account_ix, system_create_account};
use crate::error::ProgramError;
use crate::key::{Pubkey, key_eq};

verus! {

/// The mint authority's record: the bump of its program address.
#[derive(Debug, Clone, Copy, PartialEq, Eq)]
pub struct MintAuthorityPda {
    pub bump: u8,
}

/// Seed of the mint authority's address: `b"mint_authority"`.
pub const MINT_AUTHORITY_SEED: [u8; 14] = [109, 105, 110, 116, 95, 97, 117, 116, 104, 111, 114, 105, 116, 121];

impl MintAuthorityPda {
    /// Stored size of the record in bytes.
    pub const LEN: usize = 1;
}

/// The seeds of the mint authority's address.
pub open spec fn authority_seeds() -> Seq<Seq<u8>> {
    seq![MINT_AUTHORITY_SEED@]
}

/// The seed list of the mint authority's address.
pub fn make_authority_seeds() -> (r: Vec<Vec<u8>>)
    ensures
        seed_list_view(r) == authority_seeds(),
{
    let seed = MINT_AUTHORITY_SEED;
    let mut seeds: Vec<Vec<u8>> = Vec::new();
    seeds.push(bytes_vec(seed.as_slice()));
    assert(seed_list_view(seeds) =~= authority_seeds());
    seeds
}

/// What setting up the authority does. Accounts: mint authority, payer,
/// system program. `rent_minimum` is the rent-exempt balance of the record.
/// The mint authority account must be at the program address; it is
/// created owned by this program, signed for by that address, and the bump
/// is stored in it.
pub open spec fn spec_init_pda(program_id: Pubkey, a: Seq<AccountState>, rent_minimum: u64) -> Result<Seq<EffectView>, ProgramError> {
    if a.len() < 3 {
        Err(ProgramError::NotEnoughAccountKeys)
    } else {
        match program_address(authority_seeds(), program_id@) {
            None => Err(ProgramError::InvalidSeeds),
            Some((pda, bump)) => if pda != a[0].key@ {
                Err(ProgramError::InvalidSeeds)
            } else {
                Ok(seq![
                    EffectView::Invoke {
                        instruction: spec_create_account_ix(a[1].key, a[0].key, rent_minimum, MintAuthorityPda::LEN as u64, program_id),
                        accounts: seq![0usize, 1usize, 2usize],
                        signer_seeds: seq![authority_seeds().push(seq![bump])],
                    },
                    EffectView::WriteData { account: 0, bytes: seq![bump] },
                ])
            },
        }
    }
}

/// Creates the mint authority's record at its program address.
pub fn init_pda(program_id: &Pubkey, accounts: &[AccountState], rent_minimum: u64) -> (r: Result<Vec<Effect>, ProgramError>)
    ensures
        outcome_matches(r, spec_init_pda(*program_id, accounts@, rent_minimum)),
{
    if accounts.len() < 3 {
        return Err(ProgramError::NotEnoughAccountKeys);
    }
    let mint_authority = &accounts[0];
    let payer = &accounts[1];
    let seeds = make_authority_seeds();
    let (mint_authority_pda, bump) = match try_find_program_address(&seeds, program_id) {
        Some(found) => found,
        None => return Err(ProgramError::InvalidSeeds),
    };
    if !key_eq(&mint_authority_pda, &mint_authority.key) {
        return Err(ProgramError::InvalidSeeds);
    }
    let create_ix = system_create_account(&payer.key, &mint_authority.key, rent_minimum, MintAuthorityPda::LEN as u64, program_id);
    let signer_seeds = signer_seeds_with_bump(seeds, bump);
    let mut record: Vec<u8> = Vec::new();
    record.push(bump);
    let mut effects: Vec<Effect> = Vec::new();
    effects.push(signed_invoke(create_ix, &[0usize, 1usize, 2usize], signer_seeds));
    effects.push(write_data(0, record));
    proof {
        assert(effects_view(effects) =~= spec_init_pda(*program_id, accounts@, rent_minimum).unwrap());
    }
    Ok(effects)
}

} // verus!
