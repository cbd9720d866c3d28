//! Creating the mint of a non-fungible token and its metadata account.

use vstd::prelude::*;
use crate::account::{addressed_to, address_to, AccountState, Effect, EffectView, InstructionView, effects_view, invoke_view, meta_readonly,
    meta_writable, outcome_matches, plain_invoke};
use crate::codec::{enc_string, string_fits, dec_strings3_exact, lemma_strings3_roundtrip, push_string, read_strings3_exact};
use crate::cpi::{MINT_LEN, initialize_mint_data, metadata_create_v3, spec_create_account_ix, spec_metadata_v3_ix,
    system_create_account, token_initialize_mint};
use crate::error::ProgramError;
use crate::key::{Pubkey, RENT_SYSVAR_ID, SPL_TOKEN_PROGRAM_ID, SYSTEM_PROGRAM_ID};

verus! {

/// The token's title, symbol and metadata URL.
pub struct TokenParameters {
    pub nft_title: String,
    pub nft_symbol: String,
    pub nft_url: String,
}

/// The parameters' bytes: the three strings.
pub open spec fn spec_encode_strings3(x: Seq<char>, y: Seq<char>, z: Seq<char>) -> Seq<u8> {
    enc_string(x) + enc_string(y) + enc_string(z)
}

/// Reading three strings' bytes gives them back.
pub proof fn lemma_strings3_exact_roundtrip(x: Seq<char>, y: Seq<char>, z: Seq<char>)
    requires
        string_fits(x),
        string_fits(y),
        string_fits(z),
    ensures
        dec_strings3_exact(spec_encode_strings3(x, y, z)) == Some((x, y, z)),
{
    lemma_strings3_roundtrip(x, y, z, Seq::empty());
    assert(spec_encode_strings3(x, y, z) + Seq::<u8>::empty() =~= spec_encode_strings3(x, y, z));
}

impl TokenParameters {
    /// The parameters' bytes.
    pub fn to_bytes(&self) -> (r: Vec<u8>)
        requires
            string_fits(self.nft_title@),
            string_fits(self.nft_symbol@),
            string_fits(self.nft_url@),
        ensures
            r@ == spec_encode_strings3(self.nft_title@, self.nft_symbol@, self.nft_url@),
    {
        let mut out: Vec<u8> = Vec::new();
        push_string(&mut out, &self.nft_title);
        push_string(&mut out, &self.nft_symbol);
        push_string(&mut out, &self.nft_url);
        assert(out@ =~= spec_encode_strings3(self.nft_title@, self.nft_symbol@, self.nft_url@));
        out
    }

    /// Reads the parameters from instruction data.
    pub fn try_from_slice(data: &[u8]) -> (r: Option<TokenParameters>)
        ensures
            match r {
                Some(p) => dec_strings3_exact(data@) == Some((p.nft_title@, p.nft_symbol@, p.nft_url@)),
                None => dec_strings3_exact(data@) is None,
            },
            r matches Some(p) ==> string_fits(p.nft_title@) && string_fits(p.nft_symbol@) && string_fits(p.nft_url@),
    {
        match read_strings3_exact(data) {
            Some((nft_title, nft_symbol, nft_url)) => Some(TokenParameters { nft_title, nft_symbol, nft_url }),
            None => None,
        }
    }
}

/// What creating the token does. Accounts: mint, mint authority, metadata,
/// payer, system program, token program, metadata program. `rent_minimum`
/// is the rent-exempt balance of a mint. The mint gets no decimals; the
/// mint authority is also freeze authority and (signing) update authority;
/// the metadata is immutable.
pub open spec fn spec_create_token(a: Seq<AccountState>, data: Seq<u8>, rent_minimum: u64) -> Result<Seq<EffectView>, ProgramError> {
    match dec_strings3_exact(data) {
        None => Err(ProgramError::BorshIoError),
        Some((title, symbol, url)) => if a.len() < 7 {
            Err(ProgramError::NotEnoughAccountKeys)
        } else if a[5].key != SPL_TOKEN_PROGRAM_ID {
            Err(ProgramError::IncorrectProgramId)
        } else {
            Ok(seq![
                invoke_view(spec_create_account_ix(a[3].key, a[0].key, rent_minimum, MINT_LEN as u64, a[5].key),
                    seq![3usize, 0usize, 4usize, 5usize]),
                invoke_view(InstructionView {
                    program_id: a[5].key,
                    accounts: seq![meta_writable(a[0].key, false), meta_readonly(RENT_SYSVAR_ID, false)],
                    data: initialize_mint_data(0, 0, a[1].key, Some(a[1].key)),
                }, seq![0usize, 1usize, 5usize]),
                invoke_view(addressed_to(spec_metadata_v3_ix(a[2].key, a[0].key, a[1].key, a[3].key, a[1].key, true, SYSTEM_PROGRAM_ID,
                    title, symbol, url, 0, false), a[6].key), seq![2usize, 0usize, 1usize, 3usize, 6usize]),
            ])
        },
    }
}

/// Creates the token's mint (no decimals) and its metadata account.
pub fn create_token(accounts: &[AccountState], instruction_data: &[u8], rent_minimum: u64) -> (r: Result<Vec<Effect>, ProgramError>)
    ensures
        outcome_matches(r, spec_create_token(accounts@, instruction_data@, rent_minimum)),
{
    let parameters = match TokenParameters::try_from_slice(instruction_data) {
        Some(p) => p,
        None => return Err(ProgramError::BorshIoError),
    };
    if accounts.len() < 7 {
        return Err(ProgramError::NotEnoughAccountKeys);
    }
    let mint_account = &accounts[0];
    let mint_authority = &accounts[1];
    let metadata_account = &accounts[2];
    let payer = &accounts[3];
    let token_program = &accounts[5];
    let create_account_txn = system_create_account(&payer.key, &mint_account.key, rent_minimum, MINT_LEN as u64, &token_program.key);
    let initialize_txn = match token_initialize_mint(&token_program.key, &mint_account.key, &mint_authority.key,
        Some(mint_authority.key), 0) {
        Some(ix) => ix,
        None => return Err(ProgramError::IncorrectProgramId),
    };
    let system_id: Pubkey = SYSTEM_PROGRAM_ID;
    let create_metadata_txn = metadata_create_v3(metadata_account.key, mint_account.key, mint_authority.key, payer.key,
        mint_authority.key, true, system_id, &parameters.nft_title, &parameters.nft_symbol, &parameters.nft_url, 0, false);
    let create_metadata_txn = address_to(create_metadata_txn, accounts[6].key);
    let mut effects: Vec<Effect> = Vec::new();
    effects.push(plain_invoke(create_account_txn, &[3usize, 0usize, 4usize, 5usize]));
    effects.push(plain_invoke(initialize_txn, &[0usize, 1usize, 5usize]));
    effects.push(plain_invoke(create_metadata_txn, &[2usize, 0usize, 1usize, 3usize, 6usize]));
    proof {
        assert(effects_view(effects) =~= spec_create_token(accounts@, instruction_data@, rent_minimum).unwrap());
    }
    Ok(effects)
}

} // verus!
