//! Minting the single token of a non-fungible token and creating its
//! master edition.

use vstd::prelude::*;
use crate::account::{addressed_to, address_to, AccountState, Effect, EffectView, effects_view, invoke_view, outcome_matches, plain_invoke};
use crate::cpi::{ata_address, ata_create, ata_derivable, master_edition_create_v3, spec_ata_create_ix,
    spec_master_edition_v3_ix, spec_token_amount_ix, token_mint_to};
use crate::error::ProgramError;
use crate::key::{Pubkey, SPL_TOKEN_PROGRAM_ID, SYSTEM_PROGRAM_ID};

verus! {

/// The invocations that mint the token and create its master edition
/// (maximum supply one), once the associated token account exists.
pub open spec fn mint_and_edition(a: Seq<AccountState>) -> Seq<EffectView> {
    seq![
        invoke_view(spec_token_amount_ix(a[7].key, 7, a[0].key, a[4].key, a[1].key, seq![a[1].key], 1),
            seq![0usize, 1usize, 4usize, 7usize]),
        invoke_view(addressed_to(spec_master_edition_v3_ix(a[3].key, a[0].key, a[1].key, a[1].key, a[5].key, a[2].key,
            SPL_TOKEN_PROGRAM_ID, SYSTEM_PROGRAM_ID, Some(1)), a[9].key), seq![3usize, 2usize, 0usize, 1usize, 5usize, 9usize]),
    ]
}

/// What minting does. Accounts: mint, mint authority, metadata, edition,
/// associated token account, payer, system program, token program,
/// associated token program, metadata program. When the associated token
/// account holds no lamports it is created first, for the payer's wallet,
/// with the associated token account itself named as the funding account.
pub open spec fn spec_mint_to(a: Seq<AccountState>) -> Result<Seq<EffectView>, ProgramError> {
    if a.len() < 10 {
        Err(ProgramError::NotEnoughAccountKeys)
    } else if a[4].lamports == 0 && !ata_derivable(a[5].key, a[0].key, a[7].key) {
        Err(ProgramError::InvalidSeeds)
    } else if a[7].key != SPL_TOKEN_PROGRAM_ID {
        Err(ProgramError::IncorrectProgramId)
    } else if a[4].lamports == 0 {
        Ok(seq![invoke_view(spec_ata_create_ix(a[4].key, a[5].key, a[0].key, a[7].key, 0),
            seq![0usize, 4usize, 5usize, 7usize, 8usize])] + mint_and_edition(a))
    } else {
        Ok(mint_and_edition(a))
    }
}

/// Mints one token to the associated token account and creates the master
/// edition.
pub fn mint_to(accounts: &[AccountState]) -> (r: Result<Vec<Effect>, ProgramError>)
    ensures
        outcome_matches(r, spec_mint_to(accounts@)),
{
    if accounts.len() < 10 {
        return Err(ProgramError::NotEnoughAccountKeys);
    }
    let mint_account = &accounts[0];
    let mint_authority = &accounts[1];
    let metadata_account = &accounts[2];
    let edition_account = &accounts[3];
    let associated_token_account = &accounts[4];
    let payer = &accounts[5];
    let token_program = &accounts[7];
    let mut effects: Vec<Effect> = Vec::new();
    if associated_token_account.lamports == 0 {
        if ata_address(&payer.key, &mint_account.key, &token_program.key).is_none() {
            return Err(ProgramError::InvalidSeeds);
        }
        let create_ata_txn = ata_create(&associated_token_account.key, &payer.key, &mint_account.key, &token_program.key);
        effects.push(plain_invoke(create_ata_txn, &[0usize, 4usize, 5usize, 7usize, 8usize]));
    }
    let mut signers: Vec<Pubkey> = Vec::new();
    signers.push(mint_authority.key);
    let mint_nft_ata = match token_mint_to(&token_program.key, &mint_account.key, &associated_token_account.key,
        &mint_authority.key, &signers, 1) {
        Some(ix) => ix,
        None => return Err(ProgramError::IncorrectProgramId),
    };
    assert(signers@ =~= seq![mint_authority.key]);
    effects.push(plain_invoke(mint_nft_ata, &[0usize, 1usize, 4usize, 7usize]));
    let token_id: Pubkey = SPL_TOKEN_PROGRAM_ID;
    let system_id: Pubkey = SYSTEM_PROGRAM_ID;
    let edition_account_txn = master_edition_create_v3(edition_account.key, mint_account.key, mint_authority.key,
        mint_authority.key, payer.key, metadata_account.key, token_id, system_id, Some(1));
    let edition_account_txn = address_to(edition_account_txn, accounts[9].key);
    effects.push(plain_invoke(edition_account_txn, &[3usize, 2usize, 0usize, 1usize, 5usize, 9usize]));
    proof {
        assert(effects_view(effects) =~= spec_mint_to(accounts@).unwrap());
    }
    Ok(effects)
}

} // verus!
