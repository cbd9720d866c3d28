//! Transferring tokens to a recipient's associated token account.

use vstd::prelude::*;
use crate::account::{AccountState, Effect, EffectView, effects_view, invoke_view, outcome_matches, plain_invoke};
use crate::cpi::{ata_address, ata_create, ata_derivable, spec_ata_create_ix, spec_token_amount_ix, token_transfer};
use crate::error::ProgramError;
use crate::key::{Pubkey, SPL_TOKEN_PROGRAM_ID};

verus! {

/// How many tokens to transfer.
#[derive(Debug, Clone, Copy, PartialEq, Eq)]
pub struct TokenQuantity {
    pub quantity: u64,
}

/// What transferring does. Accounts: mint, source token account,
/// destination token account, owner, recipient, payer, system program,
/// token program, associated token program. When the destination holds no
/// lamports it is created first as the recipient's associated token
/// account, funded by the payer. The owner authorizes the transfer with the
/// payer as its only multisignature signer.
pub open spec fn spec_transfer_token(a: Seq<AccountState>, quantity: u64) -> Result<Seq<EffectView>, ProgramError> {
    if a.len() < 9 {
        Err(ProgramError::NotEnoughAccountKeys)
    } else if a[2].lamports == 0 && !ata_derivable(a[4].key, a[0].key, a[7].key) {
        Err(ProgramError::InvalidSeeds)
    } else if a[7].key != SPL_TOKEN_PROGRAM_ID {
        Err(ProgramError::IncorrectProgramId)
    } else {
        let moved = invoke_view(spec_token_amount_ix(a[7].key, 3, a[1].key, a[2].key, a[3].key, seq![a[5].key], quantity),
            seq![0usize, 1usize, 2usize, 3usize, 4usize, 7usize]);
        if a[2].lamports == 0 {
            Ok(seq![
                invoke_view(spec_ata_create_ix(a[5].key, a[4].key, a[0].key, a[7].key, 0),
                    seq![0usize, 2usize, 4usize, 5usize, 6usize, 7usize, 8usize]),
                moved,
            ])
        } else {
            Ok(seq![moved])
        }
    }
}

/// Transfers `token_quantity` tokens from the source to the destination
/// token account, creating the destination when needed.
pub fn transfer_token(accounts: &[AccountState], token_quantity: TokenQuantity) -> (r: Result<Vec<Effect>, ProgramError>)
    ensures
        outcome_matches(r, spec_transfer_token(accounts@, token_quantity.quantity)),
{
    if accounts.len() < 9 {
        return Err(ProgramError::NotEnoughAccountKeys);
    }
    let mint_account = &accounts[0];
    let from_ata_account = &accounts[1];
    let to_ata_account = &accounts[2];
    let owner = &accounts[3];
    let recipient_account = &accounts[4];
    let payer = &accounts[5];
    let token_program = &accounts[7];
    let mut effects: Vec<Effect> = Vec::new();
    if to_ata_account.lamports == 0 {
        if ata_address(&recipient_account.key, &mint_account.key, &token_program.key).is_none() {
            return Err(ProgramError::InvalidSeeds);
        }
        let ata_txn = ata_create(&payer.key, &recipient_account.key, &mint_account.key, &token_program.key);
        effects.push(plain_invoke(ata_txn, &[0usize, 2usize, 4usize, 5usize, 6usize, 7usize, 8usize]));
    }
    let mut signers: Vec<Pubkey> = Vec::new();
    signers.push(payer.key);
    let transfer_txn = match token_transfer(&token_program.key, &from_ata_account.key, &to_ata_account.key, &owner.key,
        &signers, token_quantity.quantity) {
        Some(ix) => ix,
        None => return Err(ProgramError::IncorrectProgramId),
    };
    assert(signers@ =~= seq![payer.key]);
    effects.push(plain_invoke(transfer_txn, &[0usize, 1usize, 2usize, 3usize, 4usize, 7usize]));
    proof {
        assert(effects_view(effects) =~= spec_transfer_token(accounts@, token_quantity.quantity).unwrap());
    }
    Ok(effects)
}

} // verus!
