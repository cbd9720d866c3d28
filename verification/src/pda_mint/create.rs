//! Creating the mint of a non-fungible token and its metadata account.

use vstd::prelude::*;
use crate::account::{addressed_to, address_to, AccountState, Effect, EffectView, InstructionView, effects_view, invoke_view, meta_readonly,
    meta_writable, outcome_matches, plain_invoke, seeds_view, signed_invoke};
use crate::codec::{string_fits, dec_strings3_exact, push_string, read_strings3_exact};
use crate::cpi::{MINT_LEN, initialize_mint_data, metadata_create_v3, spec_create_account_ix, spec_metadata_v3_ix,
    system_create_account, token_initialize_mint};
use crate::error::ProgramError;
use crate::key::{Pubkey, RENT_SYSVAR_ID, SPL_TOKEN_PROGRAM_ID, SYSTEM_PROGRAM_ID};
use crate::mint_nft::create::spec_encode_strings3;

verus! {

/// The token's name, symbol and metadata URL.
pub struct TokenArgs {
    pub nft_name: String,
    pub nft_symbol: String,
    pub nft_url: String,
}

impl TokenArgs {
    /// The arguments' bytes.
    pub fn to_bytes(&self) -> (r: Vec<u8>)
        requires
            string_fits(self.nft_name@),
            string_fits(self.nft_symbol@),
            string_fits(self.nft_url@),
        ensures
            r@ == spec_encode_strings3(self.nft_name@, self.nft_symbol@, self.nft_url@),
    {
        let mut out: Vec<u8> = Vec::new();
        push_string(&mut out, &self.nft_name);
        push_string(&mut out, &self.nft_symbol);
        push_string(&mut out, &self.nft_url);
        assert(out@ =~= spec_encode_strings3(self.nft_name@, self.nft_symbol@, self.nft_url@));
        out
    }

    /// Reads the arguments from bytes holding exactly them.
    pub fn try_from_slice(data: &[u8]) -> (r: Option<TokenArgs>)
        ensures
            match r {
                Some(t) => dec_strings3_exact(data@) == Some((t.nft_name@, t.nft_symbol@, t.nft_url@)),
                None => dec_strings3_exact(data@) is None,
            },
            r matches Some(t) ==> string_fits(t.nft_name@) && string_fits(t.nft_symbol@) && string_fits(t.nft_url@),
    {
        match read_strings3_exact(data) {
            Some((nft_name, nft_symbol, nft_url)) => Some(TokenArgs { nft_name, nft_symbol, nft_url }),
            None => None,
        }
    }
}

/// What creating the token does. Accounts: mint, mint authority, metadata,
/// signer, system program, token program, metadata program. `rent_minimum`
/// is the rent-exempt balance of a mint. A mint account holding no
/// lamports is created first. The mint gets no decimals, the mint
/// authority as mint and freeze authority and as (signing) update
/// authority of the immutable metadata; the metadata invocation carries one
/// empty group of signer seeds.
pub open spec fn spec_create_mint(a: Seq<AccountState>, name: Seq<char>, symbol: Seq<char>, url: Seq<char>, rent_minimum: u64) -> Result<Seq<EffectView>, ProgramError> {
    if a.len() < 7 {
        Err(ProgramError::NotEnoughAccountKeys)
    } else if a[5].key != SPL_TOKEN_PROGRAM_ID {
        Err(ProgramError::IncorrectProgramId)
    } else {
        let created: Seq<EffectView> = if a[0].lamports == 0 {
            seq![invoke_view(spec_create_account_ix(a[3].key, a[0].key, rent_minimum, MINT_LEN as u64, a[5].key),
                seq![0usize, 3usize, 4usize, 5usize])]
        } else {
            Seq::empty()
        };
        Ok(created + seq![
            invoke_view(InstructionView {
                program_id: a[5].key,
                accounts: seq![meta_writable(a[0].key, false), meta_readonly(RENT_SYSVAR_ID, false)],
                data: initialize_mint_data(0, 0, a[1].key, Some(a[1].key)),
            }, seq![0usize, 1usize, 5usize, 3usize]),
            EffectView::Invoke {
                instruction: addressed_to(spec_metadata_v3_ix(a[2].key, a[0].key, a[1].key, a[3].key, a[1].key, true, SYSTEM_PROGRAM_ID,
                    name, symbol, url, 0, false), a[6].key),
                accounts: seq![2usize, 0usize, 1usize, 3usize, 6usize, 3usize],
                signer_seeds: seq![Seq::empty()],
            },
        ])
    }
}

/// Creates the mint (when it does not exist yet), initializes it and
/// creates its metadata account.
pub fn create_mint(_program_id: &Pubkey, accounts: &[AccountState], token_args: TokenArgs, rent_minimum: u64) -> (r: Result<Vec<Effect>, ProgramError>)
    requires
        string_fits(token_args.nft_name@),
        string_fits(token_args.nft_symbol@),
        string_fits(token_args.nft_url@),
    ensures
        outcome_matches(r, spec_create_mint(accounts@, token_args.nft_name@, token_args.nft_symbol@, token_args.nft_url@, rent_minimum)),
{
    if accounts.len() < 7 {
        return Err(ProgramError::NotEnoughAccountKeys);
    }
    let mint_account = &accounts[0];
    let mint_authority = &accounts[1];
    let metadata_account = &accounts[2];
    let signer = &accounts[3];
    let token_program = &accounts[5];
    let mut effects: Vec<Effect> = Vec::new();
    if mint_account.lamports == 0 {
        let mint_txn = system_create_account(&signer.key, &mint_account.key, rent_minimum, MINT_LEN as u64, &token_program.key);
        effects.push(plain_invoke(mint_txn, &[0usize, 3usize, 4usize, 5usize]));
    }
    let init_mint_account = match token_initialize_mint(&token_program.key, &mint_account.key, &mint_authority.key,
        Some(mint_authority.key), 0) {
        Some(ix) => ix,
        None => return Err(ProgramError::IncorrectProgramId),
    };
    effects.push(plain_invoke(init_mint_account, &[0usize, 1usize, 5usize, 3usize]));
    let system_id: Pubkey = SYSTEM_PROGRAM_ID;
    let metadata_txn = metadata_create_v3(metadata_account.key, mint_account.key, mint_authority.key, signer.key,
        mint_authority.key, true, system_id, &token_args.nft_name, &token_args.nft_symbol, &token_args.nft_url, 0, false);
    let metadata_txn = address_to(metadata_txn, accounts[6].key);
    let empty_group: Vec<Vec<u8>> = Vec::new();
    let mut signer_seeds: Vec<Vec<Vec<u8>>> = Vec::new();
    signer_seeds.push(empty_group);
    assert(signer_seeds@[0]@.map_values(|t: Vec<u8>| t@) =~= Seq::<Seq<u8>>::empty());
    assert(seeds_view(signer_seeds) =~= seq![Seq::<Seq<u8>>::empty()]);
    effects.push(signed_invoke(metadata_txn, &[2usize, 0usize, 1usize, 3usize, 6usize, 3usize], signer_seeds));
    proof {
        assert(effects_view(effects) =~= spec_create_mint(accounts@, token_args.nft_name@, token_args.nft_symbol@,
            token_args.nft_url@, rent_minimum).unwrap());
    }
    Ok(effects)
}

} // verus!
