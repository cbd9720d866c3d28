//! Minting the single token, signed for by the mint authority's program
//! address, and creating the master edition.

use vstd::prelude::*;
use crate::account::{addressed_to, address_to, AccountState, Effect, EffectView, effects_view, invoke_view, outcome_matches, plain_invoke,
    signed_invoke};
use crate::address::{program_address, signer_seeds_with_bump, try_find_program_address};
use crate::cpi::{ata_address, ata_create, ata_derivable, master_edition_create_v3, spec_ata_create_ix,
    spec_master_edition_v3_ix, spec_token_amount_ix, token_mint_to};
use crate::error::ProgramError;
use crate::key::{Pubkey, key_eq, SPL_TOKEN_PROGRAM_ID, SYSTEM_PROGRAM_ID};
use crate::pda_mint::pda_authority::{authority_seeds, make_authority_seeds};

verus! {

/// The mint authority account is at the authority's program address.
pub open spec fn authority_matches(program_id: Pubkey, a: Seq<AccountState>) -> bool {
    program_address(authority_seeds(), program_id@) matches Some((pda, _)) && pda == a[2].key@
}

/// The bump of the authority's program address.
pub open spec fn authority_bump(program_id: Pubkey) -> u8 {
    program_address(authority_seeds(), program_id@).unwrap().1
}

/// The invocations that mint the token and create the master edition
/// (maximum supply one), signed for by the authority's address.
pub open spec fn signed_mint_and_edition(program_id: Pubkey, a: Seq<AccountState>) -> Seq<EffectView> {
    let seeds = seq![authority_seeds().push(seq![authority_bump(program_id)])];
    seq![
        EffectView::Invoke {
            instruction: spec_token_amount_ix(a[7].key, 7, a[0].key, a[3].key, a[5].key, seq![a[2].key], 1),
            accounts: seq![0usize, 2usize, 3usize, 7usize],
            signer_seeds: seeds,
        },
        EffectView::Invoke {
            instruction: addressed_to(spec_master_edition_v3_ix(a[4].key, a[0].key, a[2].key, a[2].key, a[5].key, a[1].key,
                SPL_TOKEN_PROGRAM_ID, SYSTEM_PROGRAM_ID, Some(1)), a[9].key),
            accounts: seq![4usize, 1usize, 0usize, 2usize, 5usize, 9usize, 5usize],
            signer_seeds: seeds,
        },
    ]
}

/// What minting does. Accounts: mint, metadata, mint authority, associated
/// token account, edition, signer, system program, token program,
/// associated token program, metadata program. When the associated token
/// account holds no lamports it is created first, for the signer's wallet.
pub open spec fn spec_pda_mint_to(program_id: Pubkey, a: Seq<AccountState>) -> Result<Seq<EffectView>, ProgramError> {
    if a.len() < 10 {
        Err(ProgramError::NotEnoughAccountKeys)
    } else if a[3].lamports == 0 && !ata_derivable(a[5].key, a[0].key, a[7].key) {
        Err(ProgramError::InvalidSeeds)
    } else if a[7].key != SPL_TOKEN_PROGRAM_ID {
        Err(ProgramError::IncorrectProgramId)
    } else if a[3].lamports == 0 {
        Ok(seq![invoke_view(spec_ata_create_ix(a[5].key, a[5].key, a[0].key, a[7].key, 0),
            seq![0usize, 3usize, 5usize, 7usize, 8usize])] + signed_mint_and_edition(program_id, a))
    } else {
        Ok(signed_mint_and_edition(program_id, a))
    }
}

/// Mints one token to the signer's associated token account and creates
/// the master edition. The mint authority account must be at the
/// authority's program address.
pub fn mint_to(program_id: &Pubkey, accounts: &[AccountState]) -> (r: Result<Vec<Effect>, ProgramError>)
    requires
        accounts@.len() >= 10 ==> authority_matches(*program_id, accounts@),
    ensures
        outcome_matches(r, spec_pda_mint_to(*program_id, accounts@)),
{
    if accounts.len() < 10 {
        return Err(ProgramError::NotEnoughAccountKeys);
    }
    let mint_account = &accounts[0];
    let metadata_account = &accounts[1];
    let mint_authority = &accounts[2];
    let associated_account = &accounts[3];
    let edition_account = &accounts[4];
    let signer = &accounts[5];
    let token_program = &accounts[7];
    let seeds = make_authority_seeds();
    let bump = match try_find_program_address(&seeds, program_id) {
        Some((_, bump)) => bump,
        None => return Err(ProgramError::InvalidSeeds),
    };
    let mut effects: Vec<Effect> = Vec::new();
    if associated_account.lamports == 0 {
        if ata_address(&signer.key, &mint_account.key, &token_program.key).is_none() {
            return Err(ProgramError::InvalidSeeds);
        }
        let ata_txn = ata_create(&signer.key, &signer.key, &mint_account.key, &token_program.key);
        effects.push(plain_invoke(ata_txn, &[0usize, 3usize, 5usize, 7usize, 8usize]));
    }
    let mut signers: Vec<Pubkey> = Vec::new();
    signers.push(mint_authority.key);
    let mint_to = match token_mint_to(&token_program.key, &mint_account.key, &associated_account.key, &signer.key, &signers, 1) {
        Some(ix) => ix,
        None => return Err(ProgramError::IncorrectProgramId),
    };
    assert(signers@ =~= seq![mint_authority.key]);
    effects.push(signed_invoke(mint_to, &[0usize, 2usize, 3usize, 7usize], signer_seeds_with_bump(make_authority_seeds(), bump)));
    let token_id: Pubkey = SPL_TOKEN_PROGRAM_ID;
    let system_id: Pubkey = SYSTEM_PROGRAM_ID;
    let edition_txn = master_edition_create_v3(edition_account.key, mint_account.key, mint_authority.key,
        mint_authority.key, signer.key, metadata_account.key, token_id, system_id, Some(1));
    let edition_txn = address_to(edition_txn, accounts[9].key);
    effects.push(signed_invoke(edition_txn, &[4usize, 1usize, 0usize, 2usize, 5usize, 9usize, 5usize],
        signer_seeds_with_bump(seeds, bump)));
    proof {
        assert(effects_view(effects) =~= spec_pda_mint_to(*program_id, accounts@).unwrap());
    }
    Ok(effects)
}

/// Derives the authority's program address and mints only when the mint
/// authority account is at it; `None` when it is not (where minting would
/// stop on its address check).
pub fn try_mint_to(program_id: &Pubkey, accounts: &[AccountState]) -> (r: Option<Result<Vec<Effect>, ProgramError>>)
    ensures
        r is None <==> (accounts@.len() >= 10 && !authority_matches(*program_id, accounts@)),
        r matches Some(res) ==> outcome_matches(res, spec_pda_mint_to(*program_id, accounts@)),
{
    if accounts.len() >= 10 {
        let seeds = make_authority_seeds();
        match try_find_program_address(&seeds, program_id) {
            Some((pda, _)) => {
                if !key_eq(&pda, &accounts[2].key) {
                    return None;
                }
            },
            None => return None,
        }
    }
    Some(mint_to(program_id, accounts))
}

} // verus!
