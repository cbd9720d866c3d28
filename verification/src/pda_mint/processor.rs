//! Instruction dispatch of the program-address mint authority program.

use vstd::prelude::*;
use crate::account::{AccountState, Effect, EffectView, outcome_matches};
use crate::codec::{dec_strings3_exact, read_strings3_exact};
use crate::error::ProgramError;
use crate::key::Pubkey;
use crate::pda_mint::create::{TokenArgs, create_mint, spec_create_mint};
use crate::pda_mint::mint::{authority_matches, spec_pda_mint_to, try_mint_to};
use crate::pda_mint::pda_authority::{init_pda, spec_init_pda};

verus! {

/// The program's instructions.
pub enum MyInstruction {
    CreatePdaAuthority,
    CreateNft(TokenArgs),
    MintNft,
}

/// What an instruction's bytes say: the variant, and for token creation the
/// name, symbol and URL.
pub enum MyInstructionView {
    CreatePdaAuthority,
    CreateNft(Seq<char>, Seq<char>, Seq<char>),
    MintNft,
}

/// Reading instruction bytes: a tag byte, followed for token creation by
/// exactly three strings.
pub open spec fn spec_decode_my_instruction(b: Seq<u8>) -> Option<MyInstructionView> {
    if b.len() == 1 && b[0] == 0 {
        Some(MyInstructionView::CreatePdaAuthority)
    } else if b.len() >= 1 && b[0] == 1 {
        match dec_strings3_exact(b.subrange(1, b.len() as int)) {
            Some((name, symbol, url)) => Some(MyInstructionView::CreateNft(name, symbol, url)),
            None => None,
        }
    } else if b.len() == 1 && b[0] == 2 {
        Some(MyInstructionView::MintNft)
    } else {
        None
    }
}

impl MyInstruction {
    /// Reads an instruction from instruction data.
    pub fn try_from_slice(data: &[u8]) -> (r: Option<MyInstruction>)
        ensures
            match r {
                Some(MyInstruction::CreatePdaAuthority) => spec_decode_my_instruction(data@) == Some(MyInstructionView::CreatePdaAuthority),
                Some(MyInstruction::CreateNft(t)) => spec_decode_my_instruction(data@)
                    == Some(MyInstructionView::CreateNft(t.nft_name@, t.nft_symbol@, t.nft_url@)),
                Some(MyInstruction::MintNft) => spec_decode_my_instruction(data@) == Some(MyInstructionView::MintNft),
                None => spec_decode_my_instruction(data@) is None,
            },
            r matches Some(MyInstruction::CreateNft(t)) ==> crate::codec::string_fits(t.nft_name@)
                && crate::codec::string_fits(t.nft_symbol@) && crate::codec::string_fits(t.nft_url@),
    {
        let n = data.len();
        if n == 1 && data[0] == 0 {
            Some(MyInstruction::CreatePdaAuthority)
        } else if n >= 1 && data[0] == 1 {
            let rest = vstd::slice::slice_subrange(data, 1, n);
            match read_strings3_exact(rest) {
                Some((nft_name, nft_symbol, nft_url)) => Some(MyInstruction::CreateNft(TokenArgs { nft_name, nft_symbol, nft_url })),
                None => None,
            }
        } else if n == 1 && data[0] == 2 {
            Some(MyInstruction::MintNft)
        } else {
            None
        }
    }
}

/// What the program does with instruction data. `rent_minimum` is the
/// rent-exempt balance of the account the instruction creates (the
/// authority's record, or a mint).
pub open spec fn spec_pda_mint_process(program_id: Pubkey, a: Seq<AccountState>, data: Seq<u8>, rent_minimum: u64) -> Result<Seq<EffectView>, ProgramError> {
    match spec_decode_my_instruction(data) {
        None => Err(ProgramError::BorshIoError),
        Some(MyInstructionView::CreatePdaAuthority) => spec_init_pda(program_id, a, rent_minimum),
        Some(MyInstructionView::CreateNft(name, symbol, url)) => spec_create_mint(a, name, symbol, url, rent_minimum),
        Some(MyInstructionView::MintNft) => spec_pda_mint_to(program_id, a),
    }
}

/// Minting with a mint authority account that is not at the authority's
/// program address, where the program stops on its address check.
pub open spec fn stops_on_authority(program_id: Pubkey, a: Seq<AccountState>, data: Seq<u8>) -> bool {
    spec_decode_my_instruction(data) == Some(MyInstructionView::MintNft) && a.len() >= 10 && !authority_matches(program_id, a)
}

/// Decodes the instruction and dispatches it; `None` where minting would
/// stop on the mint authority's address check.
pub fn process_instruction(program_id: &Pubkey, accounts: &[AccountState], instruction_data: &[u8], rent_minimum: u64) -> (r: Option<Result<Vec<Effect>, ProgramError>>)
    ensures
        r is None <==> stops_on_authority(*program_id, accounts@, instruction_data@),
        r matches Some(res) ==> outcome_matches(res, spec_pda_mint_process(*program_id, accounts@, instruction_data@, rent_minimum)),
{
    let instructions = match MyInstruction::try_from_slice(instruction_data) {
        Some(i) => i,
        None => return Some(Err(ProgramError::BorshIoError)),
    };
    match instructions {
        MyInstruction::CreatePdaAuthority => Some(init_pda(program_id, accounts, rent_minimum)),
        MyInstruction::CreateNft(args) => Some(create_mint(program_id, accounts, args, rent_minimum)),
        MyInstruction::MintNft => try_mint_to(program_id, accounts),
    }
}

} // verus!
