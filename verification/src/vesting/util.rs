//! Account creation helpers of the vesting program.

use vstd::prelude::*;
use crate::account::{AccountState, Effect, EffectView, invoke_view, plain_invoke, seeds_view, signed_invoke};
use crate::cpi::{ata_create, ata_derivable, spec_ata_create_ix, spec_create_account_ix, system_create_account};
use crate::error::ProgramError;
use crate::key::Pubkey;
use crate::vesting::error::VestingError;
use crate::vesting::processor::verr;

verus! {

/// Asks the system program to create the account at position `new_pda`,
/// paid by the account at `payer`, with `space` bytes owned by
/// `program_id`, signing for the program address of `seeds`.
/// `rent_minimum` is the rent-exempt balance for `space` bytes.
pub fn create_pda_account(
    accounts: &[AccountState],
    payer: usize,
    new_pda: usize,
    program_id: &Pubkey,
    seeds: Vec<Vec<Vec<u8>>>,
    space: usize,
    rent_minimum: u64,
) -> (e: Effect)
    requires
        payer < accounts@.len(),
        new_pda < accounts@.len(),
    ensures
        e@ == (EffectView::Invoke {
            instruction: spec_create_account_ix(accounts@[payer as int].key, accounts@[new_pda as int].key, rent_minimum,
                space as u64, *program_id),
            accounts: seq![new_pda, payer],
            signer_seeds: seeds_view(seeds),
        }),
{
    let pda_instruction = system_create_account(&accounts[payer].key, &accounts[new_pda].key, rent_minimum, space as u64, program_id);
    signed_invoke(pda_instruction, &[new_pda, payer], seeds)
}

/// Asks the associated token program to create the token account of
/// `owner_pda` for `mint_account`, paid by `payer`. The arguments are
/// positions in `accounts`.
pub fn create_escrow_ata(
    accounts: &[AccountState],
    payer: usize,
    owner_pda: usize,
    mint_account: usize,
    ata_account: usize,
    ata_program: usize,
    token_program: usize,
    system_program: usize,
    rent_sysvar: usize,
) -> (e: Effect)
    requires
        payer < accounts@.len(),
        owner_pda < accounts@.len(),
        mint_account < accounts@.len(),
        token_program < accounts@.len(),
        ata_derivable(accounts@[owner_pda as int].key, accounts@[mint_account as int].key, accounts@[token_program as int].key),
    ensures
        e@ == invoke_view(spec_ata_create_ix(accounts@[payer as int].key, accounts@[owner_pda as int].key,
            accounts@[mint_account as int].key, accounts@[token_program as int].key, 0),
            seq![payer, ata_account, owner_pda, mint_account, system_program, ata_program, rent_sysvar]),
{
    let ata_instruction = ata_create(&accounts[payer].key, &accounts[owner_pda].key, &accounts[mint_account].key,
        &accounts[token_program].key);
    plain_invoke(ata_instruction, &[payer, ata_account, owner_pda, mint_account, system_program, ata_program, rent_sysvar])
}

/// Accepts a balance when it covers the rent-exempt minimum.
pub fn rent_exempt(lamports: u64, minimum_balance: u64) -> (r: Result<(), ProgramError>)
    ensures
        r is Ok <==> lamports >= minimum_balance,
        r matches Err(e) ==> e == verr(VestingError::NotRentExempt),
{
    if lamports < minimum_balance {
        return Err(ProgramError::from(VestingError::NotRentExempt));
    }
    Ok(())
}

} // verus!
