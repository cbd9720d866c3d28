//! Minting fungible tokens to the signer's associated token account.

use vstd::prelude::*;
use crate::account::{AccountState, Effect, EffectView, effects_view, invoke_view, outcome_matches, plain_invoke};
use crate::cpi::{ata_address, ata_create, ata_derivable, spec_ata_create_ix, spec_token_amount_ix, token_mint_to};
use crate::error::ProgramError;
use crate::key::{Pubkey, SPL_TOKEN_PROGRAM_ID};

verus! {

/// How many tokens to mint.
#[derive(Debug, Clone, Copy, PartialEq, Eq)]
pub struct MintQunatity {
    pub quantity: u64,
}

/// What minting does. Accounts: mint, mint authority, (unused), signer,
/// token program, system program, associated token account. When the
/// associated token account holds no lamports it is created first, for the
/// signer's wallet. The signer is the owner passed to the token program
/// and its only multisignature signer.
pub open spec fn spec_mint_token(a: Seq<AccountState>, quantity: u64) -> Result<Seq<EffectView>, ProgramError> {
    if a.len() < 7 {
        Err(ProgramError::NotEnoughAccountKeys)
    } else if a[6].lamports == 0 && !ata_derivable(a[3].key, a[0].key, a[4].key) {
        Err(ProgramError::InvalidSeeds)
    } else if a[4].key != SPL_TOKEN_PROGRAM_ID {
        Err(ProgramError::IncorrectProgramId)
    } else {
        let minted = invoke_view(spec_token_amount_ix(a[4].key, 7, a[0].key, a[6].key, a[3].key, seq![a[3].key], quantity),
            seq![0usize, 1usize, 6usize, 4usize]);
        if a[6].lamports == 0 {
            Ok(seq![
                invoke_view(spec_ata_create_ix(a[3].key, a[3].key, a[0].key, a[4].key, 0),
                    seq![6usize, 0usize, 1usize, 3usize, 5usize, 4usize, 6usize]),
                minted,
            ])
        } else {
            Ok(seq![minted])
        }
    }
}

/// Mints `token_quantity` tokens to the signer's associated token account,
/// creating that account when needed.
pub fn mint_token(accounts: &[AccountState], token_quantity: MintQunatity) -> (r: Result<Vec<Effect>, ProgramError>)
    ensures
        outcome_matches(r, spec_mint_token(accounts@, token_quantity.quantity)),
{
    if accounts.len() < 7 {
        return Err(ProgramError::NotEnoughAccountKeys);
    }
    let mint_account = &accounts[0];
    let signer = &accounts[3];
    let token_program = &accounts[4];
    let associated_token_account = &accounts[6];
    let mut effects: Vec<Effect> = Vec::new();
    if associated_token_account.lamports == 0 {
        if ata_address(&signer.key, &mint_account.key, &token_program.key).is_none() {
            return Err(ProgramError::InvalidSeeds);
        }
        let ata_txn = ata_create(&signer.key, &signer.key, &mint_account.key, &token_program.key);
        effects.push(plain_invoke(ata_txn, &[6usize, 0usize, 1usize, 3usize, 5usize, 4usize, 6usize]));
    }
    let mut signers: Vec<Pubkey> = Vec::new();
    signers.push(signer.key);
    let mint_txn = match token_mint_to(&token_program.key, &mint_account.key, &associated_token_account.key, &signer.key,
        &signers, token_quantity.quantity) {
        Some(ix) => ix,
        None => return Err(ProgramError::IncorrectProgramId),
    };
    assert(signers@ =~= seq![signer.key]);
    effects.push(plain_invoke(mint_txn, &[0usize, 1usize, 6usize, 4usize]));
    proof {
        assert(effects_view(effects) =~= spec_mint_token(accounts@, token_quantity.quantity).unwrap());
    }
    Ok(effects)
}

} // verus!
