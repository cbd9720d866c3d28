//! Minting a single token by a hand-built instruction and creating its
//! master edition at the edition's derived address.

use vstd::prelude::*;
use crate::account::{AccountMeta, AccountState, Effect, EffectView, Instruction, InstructionView, effects_view, invoke_view,
    meta_readonly, meta_writable, outcome_matches, plain_invoke};
use crate::address::{program_address, seed_list_view, try_find_program_address};
use crate::codec::{bytes_vec, key_bytes};
use crate::cpi::{TokenIx, ata_address, ata_create_idempotent, ata_derivable, master_edition_create_v3, spec_ata_create_ix,
    spec_master_edition_v3_ix, spec_token_pack, token_pack};
use crate::error::ProgramError;
use crate::key::{Pubkey, SPL_TOKEN_PROGRAM_ID, SYSTEM_PROGRAM_ID, TOKEN_METADATA_PROGRAM_ID, seq_to_key};

verus! {

/// Seed `b"metadata"` of metadata program addresses.
pub const METADATA_SEED: [u8; 8] = [109, 101, 116, 97, 100, 97, 116, 97];

/// Seed `b"edition"` of edition addresses.
pub const EDITION_SEED: [u8; 7] = [101, 100, 105, 116, 105, 111, 110];

/// The seeds of a mint's edition address under the metadata program.
pub open spec fn edition_seeds(mint: Pubkey) -> Seq<Seq<u8>> {
    seq![METADATA_SEED@, TOKEN_METADATA_PROGRAM_ID@, mint@, EDITION_SEED@]
}

/// The invocations after the associated token account: minting one token
/// (hand-built: mint and payer writable, the mint authority signing) and
/// creating the master edition at the derived edition address, with the
/// mint authority as update authority and the payer as mint authority and
/// payer.
pub open spec fn mint_and_edition(a: Seq<AccountState>, edition: Seq<u8>, max_supply: u64) -> Seq<EffectView> {
    seq![
        invoke_view(InstructionView {
            program_id: SPL_TOKEN_PROGRAM_ID,
            accounts: seq![meta_writable(a[0].key, false), meta_writable(a[5].key, false), meta_readonly(a[1].key, true)],
            data: spec_token_pack(TokenIx::MintTo { amount: 1 }),
        }, seq![0usize, 5usize, 1usize]),
        invoke_view(spec_master_edition_v3_ix(seq_to_key(edition), a[0].key, a[1].key, a[5].key, a[5].key, a[2].key,
            SPL_TOKEN_PROGRAM_ID, SYSTEM_PROGRAM_ID, Some(max_supply)), seq![3usize, 0usize, 1usize, 5usize, 2usize, 9usize]),
    ]
}

/// What minting does. Accounts: mint, mint authority, metadata, edition,
/// associated token account, payer, system program, token program,
/// associated token program, metadata program. When the associated token
/// account holds no lamports, a create-if-missing instruction is issued
/// first for the payer's wallet, naming the associated token account as
/// the mint and the associated token program as the token program.
pub open spec fn spec_mint_nft(a: Seq<AccountState>, max_supply: u64) -> Result<Seq<EffectView>, ProgramError> {
    if a.len() < 10 {
        Err(ProgramError::NotEnoughAccountKeys)
    } else if a[4].lamports == 0 && !ata_derivable(a[5].key, a[4].key, a[8].key) {
        Err(ProgramError::InvalidSeeds)
    } else {
        match program_address(edition_seeds(a[0].key), TOKEN_METADATA_PROGRAM_ID@) {
            None => Err(ProgramError::InvalidSeeds),
            Some((edition, _)) => if a[4].lamports == 0 {
                Ok(seq![invoke_view(spec_ata_create_ix(a[5].key, a[5].key, a[4].key, a[8].key, 1),
                    seq![5usize, 5usize, 0usize, 4usize, 6usize, 7usize])] + mint_and_edition(a, edition, max_supply))
            } else {
                Ok(mint_and_edition(a, edition, max_supply))
            },
        }
    }
}

/// Mints one token and creates the master edition with the given maximum
/// supply.
pub fn mint_nft(accounts: &[AccountState], max_supply: u64) -> (r: Result<Vec<Effect>, ProgramError>)
    ensures
        outcome_matches(r, spec_mint_nft(accounts@, max_supply)),
{
    if accounts.len() < 10 {
        return Err(ProgramError::NotEnoughAccountKeys);
    }
    let mint_account = &accounts[0];
    let mint_authority = &accounts[1];
    let metadata_account = &accounts[2];
    let associated_token_account = &accounts[4];
    let payer = &accounts[5];
    let assocaited_token_program = &accounts[8];
    let mut effects: Vec<Effect> = Vec::new();
    if associated_token_account.lamports == 0 {
        if ata_address(&payer.key, &associated_token_account.key, &assocaited_token_program.key).is_none() {
            return Err(ProgramError::InvalidSeeds);
        }
        let ata_txn = ata_create_idempotent(&payer.key, &payer.key, &associated_token_account.key, &assocaited_token_program.key);
        effects.push(plain_invoke(ata_txn, &[5usize, 5usize, 0usize, 4usize, 6usize, 7usize]));
    }
    let mut metas: Vec<AccountMeta> = Vec::new();
    metas.push(AccountMeta { pubkey: mint_account.key, is_signer: false, is_writable: true });
    metas.push(AccountMeta { pubkey: payer.key, is_signer: false, is_writable: true });
    metas.push(AccountMeta { pubkey: mint_authority.key, is_signer: true, is_writable: false });
    assert(metas@ =~= seq![meta_writable(mint_account.key, false), meta_writable(payer.key, false), meta_readonly(mint_authority.key, true)]);
    let ix = Instruction { program_id: SPL_TOKEN_PROGRAM_ID, accounts: metas, data: token_pack(&TokenIx::MintTo { amount: 1 }) };
    let metadata_id: Pubkey = TOKEN_METADATA_PROGRAM_ID;
    let metadata_seed = METADATA_SEED;
    let edition_seed = EDITION_SEED;
    let mut seeds: Vec<Vec<u8>> = Vec::new();
    seeds.push(bytes_vec(metadata_seed.as_slice()));
    seeds.push(key_bytes(&metadata_id));
    seeds.push(key_bytes(&mint_account.key));
    seeds.push(bytes_vec(edition_seed.as_slice()));
    assert(seed_list_view(seeds) =~= edition_seeds(mint_account.key));
    let edition_account = match try_find_program_address(&seeds, &metadata_id) {
        Some((k, _)) => k,
        None => return Err(ProgramError::InvalidSeeds),
    };
    proof { crate::codec::lemma_key_from_bytes(edition_account); }
    effects.push(plain_invoke(ix, &[0usize, 5usize, 1usize]));
    let token_id: Pubkey = SPL_TOKEN_PROGRAM_ID;
    let system_id: Pubkey = SYSTEM_PROGRAM_ID;
    let edition_txn = master_edition_create_v3(edition_account, mint_account.key, mint_authority.key, payer.key,
        payer.key, metadata_account.key, token_id, system_id, Some(max_supply));
    effects.push(plain_invoke(edition_txn, &[3usize, 0usize, 1usize, 5usize, 2usize, 9usize]));
    proof {
        assert(effects_view(effects) =~= spec_mint_nft(accounts@, max_supply).unwrap());
    }
    Ok(effects)
}

} // verus!
