//! Creating a token mint, initialized by a hand-built instruction, and its
//! metadata account.

use vstd::prelude::*;
use crate::account::{addressed_to, address_to, AccountState, Effect, EffectView, Instruction, InstructionView, effects_view, invoke_view,
    meta_readonly, meta_writable, outcome_matches, plain_invoke};
use crate::codec::{enc_string, string_fits, dec_strings3_at, lemma_strings3_roundtrip, lemma_decoded_strings3_fit,
    push_string, read_strings3};
use crate::cpi::{MINT_LEN, TokenIx, metadata_create_v3, spec_create_account_ix, spec_metadata_v3_ix, spec_token_pack,
    system_create_account, token_pack};
use crate::account::AccountMeta;
use crate::error::ProgramError;
use crate::key::{Pubkey, RENT_SYSVAR_ID, SYSTEM_PROGRAM_ID};

verus! {

/// The token's title, symbol, metadata URL and decimals.
pub struct TokenParamter {
    pub token_title: String,
    pub token_sym: String,
    pub token_url: String,
    pub decimals: u8,
}

/// The parameters' bytes: the three strings, then the decimals.
pub open spec fn spec_encode_token_paramter(title: Seq<char>, sym: Seq<char>, url: Seq<char>, decimals: u8) -> Seq<u8> {
    enc_string(title) + enc_string(sym) + enc_string(url) + seq![decimals]
}

/// Reading the parameters: three strings and one byte, and nothing more.
pub open spec fn spec_decode_token_paramter(b: Seq<u8>) -> Option<(Seq<char>, Seq<char>, Seq<char>, u8)> {
    match dec_strings3_at(b, 0) {
        Some((title, sym, url, p)) => if p + 1 == b.len() { Some((title, sym, url, b[p])) } else { None },
        None => None,
    }
}

/// Reading the parameters' bytes gives them back.
pub proof fn lemma_token_paramter_roundtrip(title: Seq<char>, sym: Seq<char>, url: Seq<char>, decimals: u8)
    requires
        string_fits(title),
        string_fits(sym),
        string_fits(url),
    ensures
        spec_decode_token_paramter(spec_encode_token_paramter(title, sym, url, decimals)) == Some((title, sym, url, decimals)),
{
    lemma_strings3_roundtrip(title, sym, url, seq![decimals]);
}

impl TokenParamter {
    /// The parameters' bytes.
    pub fn to_bytes(&self) -> (r: Vec<u8>)
        requires
            string_fits(self.token_title@),
            string_fits(self.token_sym@),
            string_fits(self.token_url@),
        ensures
            r@ == spec_encode_token_paramter(self.token_title@, self.token_sym@, self.token_url@, self.decimals),
    {
        let mut out: Vec<u8> = Vec::new();
        push_string(&mut out, &self.token_title);
        push_string(&mut out, &self.token_sym);
        push_string(&mut out, &self.token_url);
        out.push(self.decimals);
        assert(out@ =~= spec_encode_token_paramter(self.token_title@, self.token_sym@, self.token_url@, self.decimals));
        out
    }

    /// Reads the parameters from instruction data.
    pub fn try_from_slice(data: &[u8]) -> (r: Option<TokenParamter>)
        ensures
            match r {
                Some(p) => spec_decode_token_paramter(data@) == Some((p.token_title@, p.token_sym@, p.token_url@, p.decimals)),
                None => spec_decode_token_paramter(data@) is None,
            },
            r matches Some(p) ==> string_fits(p.token_title@) && string_fits(p.token_sym@) && string_fits(p.token_url@),
    {
        let (token_title, token_sym, token_url, p) = match read_strings3(data, 0) {
            Some(v) => v,
            None => return None,
        };
        proof { lemma_decoded_strings3_fit(data@, 0); }
        if p >= data.len() || data.len() - p != 1 {
            return None;
        }
        Some(TokenParamter { token_title, token_sym, token_url, decimals: data[p] })
    }
}

/// Decimals of the mints this program creates, whatever the parameters say.
pub const MINT_DECIMALS: u8 = 9;

/// What creating the mint does. Accounts: mint, mint authority, metadata,
/// payer, system program, token program, metadata program. `rent_minimum`
/// is the rent-exempt balance of a mint. The mint is initialized with nine
/// decimals and the mint authority as mint and freeze authority; the
/// metadata names the mint authority as (signing) update authority and is
/// immutable.
pub open spec fn spec_transfer_create_mint(a: Seq<AccountState>, data: Seq<u8>, rent_minimum: u64) -> Result<Seq<EffectView>, ProgramError> {
    match spec_decode_token_paramter(data) {
        None => Err(ProgramError::BorshIoError),
        Some((title, sym, url, _)) => if a.len() < 7 {
            Err(ProgramError::NotEnoughAccountKeys)
        } else {
            Ok(seq![
                invoke_view(spec_create_account_ix(a[3].key, a[0].key, rent_minimum, MINT_LEN as u64, a[5].key),
                    seq![0usize, 3usize, 4usize, 5usize]),
                invoke_view(InstructionView {
                    program_id: a[5].key,
                    accounts: seq![meta_writable(a[0].key, false), meta_readonly(RENT_SYSVAR_ID, false)],
                    data: spec_token_pack(TokenIx::InitializeMint { decimals: MINT_DECIMALS, mint_authority: a[1].key,
                        freeze_authority: Some(a[1].key) }),
                }, seq![0usize, 1usize, 5usize]),
                invoke_view(addressed_to(spec_metadata_v3_ix(a[2].key, a[0].key, a[1].key, a[3].key, a[1].key, true, SYSTEM_PROGRAM_ID,
                    title, sym, url, 0, false), a[5].key), seq![2usize, 0usize, 1usize, 3usize, 1usize, 4usize]),
            ])
        },
    }
}

/// Creates the mint, initializes it and creates its metadata account.
pub fn create_mint(accounts: &[AccountState], instruction_data: &[u8], rent_minimum: u64) -> (r: Result<Vec<Effect>, ProgramError>)
    ensures
        outcome_matches(r, spec_transfer_create_mint(accounts@, instruction_data@, rent_minimum)),
{
    let token_arguments = match TokenParamter::try_from_slice(instruction_data) {
        Some(p) => p,
        None => return Err(ProgramError::BorshIoError),
    };
    if accounts.len() < 7 {
        return Err(ProgramError::NotEnoughAccountKeys);
    }
    let mint_account = &accounts[0];
    let mint_authority = &accounts[1];
    let metadata_account = &accounts[2];
    let payer = &accounts[3];
    let token_program = &accounts[5];
    let mint_account_txn = system_create_account(&payer.key, &mint_account.key, rent_minimum, MINT_LEN as u64, &token_program.key);
    let mut metas: Vec<AccountMeta> = Vec::new();
    metas.push(AccountMeta { pubkey: mint_account.key, is_signer: false, is_writable: true });
    metas.push(AccountMeta { pubkey: RENT_SYSVAR_ID, is_signer: false, is_writable: false });
    assert(metas@ =~= seq![meta_writable(mint_account.key, false), meta_readonly(RENT_SYSVAR_ID, false)]);
    let initialize_mint_ix = Instruction {
        program_id: token_program.key,
        accounts: metas,
        data: token_pack(&TokenIx::InitializeMint { decimals: MINT_DECIMALS, mint_authority: mint_authority.key,
            freeze_authority: Some(mint_authority.key) }),
    };
    let system_id: Pubkey = SYSTEM_PROGRAM_ID;
    let metadata_account_txn = metadata_create_v3(metadata_account.key, mint_account.key, mint_authority.key, payer.key,
        mint_authority.key, true, system_id, &token_arguments.token_title, &token_arguments.token_sym,
        &token_arguments.token_url, 0, false);
    let metadata_account_txn = address_to(metadata_account_txn, accounts[5].key);
    let mut effects: Vec<Effect> = Vec::new();
    effects.push(plain_invoke(mint_account_txn, &[0usize, 3usize, 4usize, 5usize]));
    effects.push(plain_invoke(initialize_mint_ix, &[0usize, 1usize, 5usize]));
    effects.push(plain_invoke(metadata_account_txn, &[2usize, 0usize, 1usize, 3usize, 1usize, 4usize]));
    proof {
        assert(effects_view(effects) =~= spec_transfer_create_mint(accounts@, instruction_data@, rent_minimum).unwrap());
    }
    Ok(effects)
}

} // verus!
