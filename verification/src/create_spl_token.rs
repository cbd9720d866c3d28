//! Creating a token mint with its metadata account.

use vstd::prelude::*;
use crate::account::{addressed_to, address_to, AccountState, Effect, EffectView, InstructionView, effects_view, invoke_view, meta_writable,
    outcome_matches, plain_invoke, unchecked_invoke};
use crate::codec::{enc_string, string_fits, dec_strings3_at, lemma_strings3_roundtrip, lemma_decoded_strings3_fit,
    push_string, read_strings3};
use crate::cpi::{MINT_LEN, initialize_mint_data, metadata_create_v3, spec_create_account_ix, spec_metadata_v3_ix,
    system_create_account, token_initialize_mint2};
use crate::error::ProgramError;
use crate::key::{Pubkey, SPL_TOKEN_PROGRAM_ID, SYSTEM_PROGRAM_ID};

verus! {

/// The token's name, symbol, metadata URI and decimals.
pub struct CreateTokenArgs {
    pub token_title: String,
    pub token_symbol: String,
    pub token_uri: String,
    pub token_decimals: u8,
}

/// The arguments' bytes: the three strings, then the decimals.
pub open spec fn spec_encode_create_token_args(title: Seq<char>, symbol: Seq<char>, uri: Seq<char>, decimals: u8) -> Seq<u8> {
    enc_string(title) + enc_string(symbol) + enc_string(uri) + seq![decimals]
}

/// Reading the arguments: three strings and one byte, and nothing more.
pub open spec fn spec_decode_create_token_args(b: Seq<u8>) -> Option<(Seq<char>, Seq<char>, Seq<char>, u8)> {
    match dec_strings3_at(b, 0) {
        Some((title, symbol, uri, p)) => if p + 1 == b.len() { Some((title, symbol, uri, b[p])) } else { None },
        None => None,
    }
}

/// Reading the arguments' bytes gives them back.
pub proof fn lemma_create_token_args_roundtrip(title: Seq<char>, symbol: Seq<char>, uri: Seq<char>, decimals: u8)
    requires
        string_fits(title),
        string_fits(symbol),
        string_fits(uri),
    ensures
        spec_decode_create_token_args(spec_encode_create_token_args(title, symbol, uri, decimals)) == Some((title, symbol, uri, decimals)),
{
    lemma_strings3_roundtrip(title, symbol, uri, seq![decimals]);
}

impl CreateTokenArgs {
    /// The arguments' bytes.
    pub fn to_bytes(&self) -> (r: Vec<u8>)
        requires
            string_fits(self.token_title@),
            string_fits(self.token_symbol@),
            string_fits(self.token_uri@),
        ensures
            r@ == spec_encode_create_token_args(self.token_title@, self.token_symbol@, self.token_uri@, self.token_decimals),
    {
        let mut out: Vec<u8> = Vec::new();
        push_string(&mut out, &self.token_title);
        push_string(&mut out, &self.token_symbol);
        push_string(&mut out, &self.token_uri);
        out.push(self.token_decimals);
        assert(out@ =~= spec_encode_create_token_args(self.token_title@, self.token_symbol@, self.token_uri@, self.token_decimals));
        out
    }

    /// Reads the arguments from instruction data.
    pub fn try_from_slice(data: &[u8]) -> (r: Option<CreateTokenArgs>)
        ensures
            match r {
                Some(a) => spec_decode_create_token_args(data@) == Some((a.token_title@, a.token_symbol@, a.token_uri@, a.token_decimals)),
                None => spec_decode_create_token_args(data@) is None,
            },
            r matches Some(a) ==> string_fits(a.token_title@) && string_fits(a.token_symbol@) && string_fits(a.token_uri@),
    {
        let (token_title, token_symbol, token_uri, p) = match read_strings3(data, 0) {
            Some(v) => v,
            None => return None,
        };
        proof { lemma_decoded_strings3_fit(data@, 0); }
        if p >= data.len() || data.len() - p != 1 {
            return None;
        }
        Some(CreateTokenArgs { token_title, token_symbol, token_uri, token_decimals: data[p] })
    }
}

/// What the program does. Accounts: mint, mint authority, metadata, payer,
/// system program, token program, metadata program. `rent_minimum` is the
/// rent-exempt balance of a mint. It creates the mint account owned by the
/// token program, initializes it with the mint authority as mint and freeze
/// authority, and creates the metadata (update authority: the mint
/// authority, signing; immutable).
pub open spec fn spec_create_token(program_id: Pubkey, a: Seq<AccountState>, data: Seq<u8>, rent_minimum: u64) -> Result<Seq<EffectView>, ProgramError> {
    if a.len() < 7 {
        Err(ProgramError::NotEnoughAccountKeys)
    } else {
        match spec_decode_create_token_args(data) {
            None => Err(ProgramError::BorshIoError),
            Some((title, symbol, uri, decimals)) => if a[5].key != SPL_TOKEN_PROGRAM_ID {
                Err(ProgramError::IncorrectProgramId)
            } else {
                Ok(seq![
                    EffectView::InvokeUnchecked { instruction: spec_create_account_ix(a[3].key, a[0].key, rent_minimum, MINT_LEN as u64, a[5].key), accounts:
                        seq![3usize, 0usize, 4usize, 5usize] },
                    invoke_view(InstructionView {
                        program_id: a[5].key,
                        accounts: seq![meta_writable(a[0].key, false)],
                        data: initialize_mint_data(20, decimals, a[1].key, Some(a[1].key)),
                    }, seq![0usize, 1usize, 5usize]),
                    invoke_view(addressed_to(spec_metadata_v3_ix(a[2].key, a[0].key, a[1].key, a[3].key, a[1].key, true, SYSTEM_PROGRAM_ID,
                        title, symbol, uri, 0, false), a[6].key), seq![2usize, 0usize, 1usize, 3usize, 6usize]),
                ])
            },
        }
    }
}

/// Creates and initializes the mint and its metadata account.
pub fn process_instruction(program_id: &Pubkey, accounts: &[AccountState], instruction_data: &[u8], rent_minimum: u64) -> (r: Result<Vec<Effect>, ProgramError>)
    ensures
        outcome_matches(r, spec_create_token(*program_id, accounts@, instruction_data@, rent_minimum)),
{
    if accounts.len() < 7 {
        return Err(ProgramError::NotEnoughAccountKeys);
    }
    let mint_account = &accounts[0];
    let mint_authority = &accounts[1];
    let metadata_account = &accounts[2];
    let payer = &accounts[3];
    let token_program = &accounts[5];
    let arguments = match CreateTokenArgs::try_from_slice(instruction_data) {
        Some(a) => a,
        None => return Err(ProgramError::BorshIoError),
    };
    let txn_mint = system_create_account(&payer.key, &mint_account.key, rent_minimum, MINT_LEN as u64, &token_program.key);
    let initialize_txn = match token_initialize_mint2(&token_program.key, &mint_account.key, &mint_authority.key,
        Some(mint_authority.key), arguments.token_decimals) {
        Some(ix) => ix,
        None => return Err(ProgramError::IncorrectProgramId),
    };
    let system_id: Pubkey = SYSTEM_PROGRAM_ID;
    let metadata_txn = metadata_create_v3(metadata_account.key, mint_account.key, mint_authority.key, payer.key,
        mint_authority.key, true, system_id, &arguments.token_title, &arguments.token_symbol, &arguments.token_uri, 0, false);
    let metadata_txn = address_to(metadata_txn, accounts[6].key);
    let mut effects: Vec<Effect> = Vec::new();
    effects.push(unchecked_invoke(txn_mint, &[3usize, 0usize, 4usize, 5usize]));
    effects.push(plain_invoke(initialize_txn, &[0usize, 1usize, 5usize]));
    effects.push(plain_invoke(metadata_txn, &[2usize, 0usize, 1usize, 3usize, 6usize]));
    proof {
        assert(effects_view(effects) =~= spec_create_token(*program_id, accounts@, instruction_data@, rent_minimum).unwrap());
    }
    Ok(effects)
}

} // verus!
