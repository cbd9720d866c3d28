//! Instruction dispatch of the token operations program.

use vstd::prelude::*;
use crate::account::{AccountState, Effect, EffectView, outcome_matches};
use crate::codec::{dec_u64, read_u64};
use crate::error::ProgramError;
use crate::key::Pubkey;
use crate::transfer_token::create::{create_mint, spec_transfer_create_mint};
use crate::transfer_token::mint_nft::{mint_nft, spec_mint_nft};
use crate::transfer_token::mint_spl::{MintQunatity, mint_token, spec_mint_token};
use crate::transfer_token::transfer::{TokenQuantity, spec_transfer_token, transfer_token};

verus! {

/// Maximum supply of the editions this program creates: one token is one
/// non-fungible token.
pub const NFT_MAX_SUPPLY: u64 = 1;

/// What the program does with instruction data: a tag byte, then the
/// variant's fields. Tag 0 creates a mint from the parameters that follow;
/// tag 1 mints a non-fungible token; tags 2 and 3 mint and transfer the
/// 64-bit quantity that follows. `rent_minimum` is the rent-exempt balance
/// of a mint.
pub open spec fn spec_transfer_token_process(a: Seq<AccountState>, data: Seq<u8>, rent_minimum: u64) -> Result<Seq<EffectView>, ProgramError> {
    if data.len() >= 1 && data[0] == 0 {
        spec_transfer_create_mint(a, data.subrange(1, data.len() as int), rent_minimum)
    } else if data.len() == 1 && data[0] == 1 {
        spec_mint_nft(a, NFT_MAX_SUPPLY)
    } else if data.len() == 9 && data[0] == 2 {
        spec_mint_token(a, dec_u64(data.subrange(1, 9)))
    } else if data.len() == 9 && data[0] == 3 {
        spec_transfer_token(a, dec_u64(data.subrange(1, 9)))
    } else {
        Err(ProgramError::BorshIoError)
    }
}

/// Decodes the instruction and dispatches it.
pub fn process_instruction(_pubkey: &Pubkey, accounts: &[AccountState], instructions_data: &[u8], rent_minimum: u64) -> (r: Result<Vec<Effect>, ProgramError>)
    ensures
        outcome_matches(r, spec_transfer_token_process(accounts@, instructions_data@, rent_minimum)),
{
    let n = instructions_data.len();
    if n >= 1 && instructions_data[0] == 0 {
        create_mint(accounts, vstd::slice::slice_subrange(instructions_data, 1, n), rent_minimum)
    } else if n == 1 && instructions_data[0] == 1 {
        mint_nft(accounts, NFT_MAX_SUPPLY)
    } else if n == 9 && instructions_data[0] == 2 {
        mint_token(accounts, MintQunatity { quantity: read_u64(instructions_data, 1) })
    } else if n == 9 && instructions_data[0] == 3 {
        transfer_token(accounts, TokenQuantity { quantity: read_u64(instructions_data, 1) })
    } else {
        Err(ProgramError::BorshIoError)
    }
}

} // verus!
