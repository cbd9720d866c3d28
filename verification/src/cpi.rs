//! Instructions for the system, token and associated-token programs, built
//! by those programs' own instruction builders.

use vstd::prelude::*;
use crate::account::{AccountMeta, Instruction, InstructionView, meta_readonly, meta_writable};
use crate::codec::{enc_bool, enc_key, enc_string, enc_u16, enc_u32, enc_u64, string_fits};
use crate::key::{Pubkey, SYSTEM_PROGRAM_ID, SPL_TOKEN_PROGRAM_ID, RENT_SYSVAR_ID, ASSOCIATED_TOKEN_PROGRAM_ID, TOKEN_METADATA_PROGRAM_ID};
use crate::address::program_address;
use solana_program::pubkey::Pubkey as SolPubkey;
use solana_program::program_pack::Pack;
use mpl_token_metadata::instructions::{CreateMasterEditionV3, CreateMasterEditionV3InstructionArgs, CreateMetadataAccountV3,
    CreateMetadataAccountV3InstructionArgs};
use mpl_token_metadata::types::DataV2;
use spl_token::instruction::TokenInstruction;

verus! {

/// The system program's create-account instruction.
pub open spec fn spec_create_account_ix(from: Pubkey, to: Pubkey, lamports: u64, space: u64, owner: Pubkey) -> InstructionView {
    InstructionView {
        program_id: SYSTEM_PROGRAM_ID,
        accounts: seq![meta_writable(from, true), meta_writable(to, true)],
        data: enc_u32(0) + enc_u64(lamports) + enc_u64(space) + enc_key(owner),
    }
}

/// The system program's lamport transfer instruction.
pub open spec fn spec_system_transfer_ix(from: Pubkey, to: Pubkey, lamports: u64) -> InstructionView {
    InstructionView {
        program_id: SYSTEM_PROGRAM_ID,
        accounts: seq![meta_writable(from, true), meta_writable(to, false)],
        data: enc_u32(2) + enc_u64(lamports),
    }
}

/// The accounts of a token instruction acting on two writable accounts
/// with an authority and optional multisignature signers.
pub open spec fn token_accounts(a: Pubkey, b: Pubkey, authority: Pubkey, signers: Seq<Pubkey>) -> Seq<AccountMeta> {
    seq![meta_writable(a, false), meta_writable(b, false), meta_readonly(authority, signers.len() == 0)]
        + signers.map_values(|s: Pubkey| meta_readonly(s, true))
}

/// A token instruction with a one-byte tag and an amount.
pub open spec fn spec_token_amount_ix(
    token_program: Pubkey,
    tag: u8,
    a: Pubkey,
    b: Pubkey,
    authority: Pubkey,
    signers: Seq<Pubkey>,
    amount: u64,
) -> InstructionView {
    InstructionView {
        program_id: token_program,
        accounts: token_accounts(a, b, authority, signers),
        data: seq![tag] + enc_u64(amount),
    }
}

/// An optional address as the token program lays it out.
pub open spec fn enc_key_option(k: Option<Pubkey>) -> Seq<u8> {
    match k {
        Some(k) => seq![1u8] + enc_key(k),
        None => seq![0u8],
    }
}

/// The token program's initialize-mint instruction data.
pub open spec fn initialize_mint_data(tag: u8, decimals: u8, mint_authority: Pubkey, freeze_authority: Option<Pubkey>) -> Seq<u8> {
    seq![tag, decimals] + enc_key(mint_authority) + enc_key_option(freeze_authority)
}

/// The associated-token-account creation instruction; `tag` is 0 for
/// create and 1 for create-if-missing.
pub open spec fn spec_ata_create_ix(funding: Pubkey, wallet: Pubkey, mint: Pubkey, token_program: Pubkey, tag: u8) -> InstructionView {
    let ata = program_address(seq![wallet@, token_program@, mint@], ASSOCIATED_TOKEN_PROGRAM_ID@).unwrap().0;
    InstructionView {
        program_id: ASSOCIATED_TOKEN_PROGRAM_ID,
        accounts: seq![
            meta_writable(funding, true),
            meta_writable(crate::key::seq_to_key(ata), false),
            meta_readonly(wallet, false),
            meta_readonly(mint, false),
            meta_readonly(SYSTEM_PROGRAM_ID, false),
            meta_readonly(token_program, false),
        ],
        data: seq![tag],
    }
}

/// Whether the associated token address of `wallet` and `mint` can be
/// derived.
pub open spec fn ata_derivable(wallet: Pubkey, mint: Pubkey, token_program: Pubkey) -> bool {
    program_address(seq![wallet@, token_program@, mint@], ASSOCIATED_TOKEN_PROGRAM_ID@) is Some
}

/// Derives the associated token address of `wallet` and `mint`: the
/// program address of wallet, token program and mint under the associated
/// token program.
pub fn ata_address(wallet: &Pubkey, mint: &Pubkey, token_program: &Pubkey) -> (r: Option<Pubkey>)
    ensures
        r is Some <==> ata_derivable(*wallet, *mint, *token_program),
        r matches Some(k) ==> k@ == program_address(seq![wallet@, token_program@, mint@], ASSOCIATED_TOKEN_PROGRAM_ID@).unwrap().0,
{
    let mut seeds: Vec<Vec<u8>> = Vec::new();
    seeds.push(crate::codec::key_bytes(wallet));
    seeds.push(crate::codec::key_bytes(token_program));
    seeds.push(crate::codec::key_bytes(mint));
    assert(crate::address::seed_list_view(seeds) =~= seq![wallet@, token_program@, mint@]);
    let ata_program = ASSOCIATED_TOKEN_PROGRAM_ID;
    match crate::address::try_find_program_address(&seeds, &ata_program) {
        Some((k, _)) => Some(k),
        None => None,
    }
}

/// Calls `solana_program::system_instruction::create_account`. Claimed:
/// the instruction targets the system program, lists the payer and the new
/// account as writable signers, and carries the variant index 0 (four bytes)
/// followed by the lamports, the space and the owner.
#[verifier::external_body]
pub(crate) fn system_create_account(from: &Pubkey, to: &Pubkey, lamports: u64, space: u64, owner: &Pubkey) -> (ix: Instruction)
    ensures
        ix@ == spec_create_account_ix(*from, *to, lamports, space, *owner),
{
    #[allow(deprecated)]
    let ix = solana_program::system_instruction::create_account(
        &SolPubkey::new_from_array(*from), &SolPubkey::new_from_array(*to), lamports, space, &SolPubkey::new_from_array(*owner));
    let accounts = ix.accounts.iter().map(|m| AccountMeta { pubkey: m.pubkey.to_bytes(), is_signer: m.is_signer, is_writable: m.is_writable }).collect();
    Instruction { program_id: ix.program_id.to_bytes(), accounts, data: ix.data }
}

/// Calls `solana_program::system_instruction::transfer`. Claimed: the
/// instruction targets the system program, lists the payer as a writable
/// signer and the receiver as writable, and carries the variant index 2
/// (four bytes) followed by the lamports.
#[verifier::external_body]
pub(crate) fn system_transfer(from: &Pubkey, to: &Pubkey, lamports: u64) -> (ix: Instruction)
    ensures
        ix@ == spec_system_transfer_ix(*from, *to, lamports),
{
    #[allow(deprecated)]
    let ix = solana_program::system_instruction::transfer(&SolPubkey::new_from_array(*from), &SolPubkey::new_from_array(*to), lamports);
    let accounts = ix.accounts.iter().map(|m| AccountMeta { pubkey: m.pubkey.to_bytes(), is_signer: m.is_signer, is_writable: m.is_writable }).collect();
    Instruction { program_id: ix.program_id.to_bytes(), accounts, data: ix.data }
}

/// Calls `spl_token::instruction::transfer`. Claimed: it returns an error exactly when
/// the token program id is not the SPL token program; otherwise the
/// instruction carries tag 3 and the amount, and lists source and
/// destination as writable, then the authority (a signer when no
/// multisignature signers are given), then the signers.
#[verifier::external_body]
pub(crate) fn token_transfer(
    token_program: &Pubkey,
    source: &Pubkey,
    destination: &Pubkey,
    authority: &Pubkey,
    signers: &Vec<Pubkey>,
    amount: u64,
) -> (r: Option<Instruction>)
    ensures
        r is None <==> *token_program != SPL_TOKEN_PROGRAM_ID,
        r matches Some(ix) ==> ix@ == spec_token_amount_ix(*token_program, 3, *source, *destination, *authority, signers@, amount),
{
    let sig: Vec<SolPubkey> = signers.iter().map(|s| SolPubkey::new_from_array(*s)).collect();
    let sig_refs: Vec<&SolPubkey> = sig.iter().collect();
    let ix = spl_token::instruction::transfer(&SolPubkey::new_from_array(*token_program), &SolPubkey::new_from_array(*source),
        &SolPubkey::new_from_array(*destination), &SolPubkey::new_from_array(*authority), &sig_refs, amount).ok()?;
    let accounts = ix.accounts.iter().map(|m| AccountMeta { pubkey: m.pubkey.to_bytes(), is_signer: m.is_signer, is_writable: m.is_writable }).collect();
    Some(Instruction { program_id: ix.program_id.to_bytes(), accounts, data: ix.data })
}

/// Calls `spl_token::instruction::mint_to`. Claimed: it returns an error exactly when
/// the token program id is not the SPL token program; otherwise the
/// instruction carries tag 7 and the amount, and lists mint and account as
/// writable, then the mint authority (a signer when no multisignature
/// signers are given), then the signers.
#[verifier::external_body]
pub(crate) fn token_mint_to(
    token_program: &Pubkey,
    mint: &Pubkey,
    account: &Pubkey,
    owner: &Pubkey,
    signers: &Vec<Pubkey>,
    amount: u64,
) -> (r: Option<Instruction>)
    ensures
        r is None <==> *token_program != SPL_TOKEN_PROGRAM_ID,
        r matches Some(ix) ==> ix@ == spec_token_amount_ix(*token_program, 7, *mint, *account, *owner, signers@, amount),
{
    let sig: Vec<SolPubkey> = signers.iter().map(|s| SolPubkey::new_from_array(*s)).collect();
    let sig_refs: Vec<&SolPubkey> = sig.iter().collect();
    let ix = spl_token::instruction::mint_to(&SolPubkey::new_from_array(*token_program), &SolPubkey::new_from_array(*mint),
        &SolPubkey::new_from_array(*account), &SolPubkey::new_from_array(*owner), &sig_refs, amount).ok()?;
    let accounts = ix.accounts.iter().map(|m| AccountMeta { pubkey: m.pubkey.to_bytes(), is_signer: m.is_signer, is_writable: m.is_writable }).collect();
    Some(Instruction { program_id: ix.program_id.to_bytes(), accounts, data: ix.data })
}

/// Calls `spl_token::instruction::burn`. Claimed: it returns an error exactly when the
/// token program id is not the SPL token program; otherwise the instruction
/// carries tag 8 and the amount, and lists the token account and the mint
/// as writable, then the authority (a signer when no multisignature signers
/// are given), then the signers.
#[verifier::external_body]
pub(crate) fn token_burn(
    token_program: &Pubkey,
    account: &Pubkey,
    mint: &Pubkey,
    authority: &Pubkey,
    signers: &Vec<Pubkey>,
    amount: u64,
) -> (r: Option<Instruction>)
    ensures
        r is None <==> *token_program != SPL_TOKEN_PROGRAM_ID,
        r matches Some(ix) ==> ix@ == spec_token_amount_ix(*token_program, 8, *account, *mint, *authority, signers@, amount),
{
    let sig: Vec<SolPubkey> = signers.iter().map(|s| SolPubkey::new_from_array(*s)).collect();
    let sig_refs: Vec<&SolPubkey> = sig.iter().collect();
    let ix = spl_token::instruction::burn(&SolPubkey::new_from_array(*token_program), &SolPubkey::new_from_array(*account),
        &SolPubkey::new_from_array(*mint), &SolPubkey::new_from_array(*authority), &sig_refs, amount).ok()?;
    let accounts = ix.accounts.iter().map(|m| AccountMeta { pubkey: m.pubkey.to_bytes(), is_signer: m.is_signer, is_writable: m.is_writable }).collect();
    Some(Instruction { program_id: ix.program_id.to_bytes(), accounts, data: ix.data })
}

/// Calls `spl_token::instruction::initialize_mint`. Claimed: it fails
/// exactly when the token program id is not the SPL token program;
/// otherwise the data is tag 0, the decimals, the mint authority and the
/// optional freeze authority, and the accounts are the writable mint and
/// the rent sysvar.
#[verifier::external_body]
pub(crate) fn token_initialize_mint(
    token_program: &Pubkey,
    mint: &Pubkey,
    mint_authority: &Pubkey,
    freeze_authority: Option<Pubkey>,
    decimals: u8,
) -> (r: Option<Instruction>)
    ensures
        r is None <==> *token_program != SPL_TOKEN_PROGRAM_ID,
        r matches Some(ix) ==> ix@ == (InstructionView {
            program_id: *token_program,
            accounts: seq![meta_writable(*mint, false), meta_readonly(RENT_SYSVAR_ID, false)],
            data: initialize_mint_data(0, decimals, *mint_authority, freeze_authority),
        }),
{
    let freeze = freeze_authority.map(SolPubkey::new_from_array);
    let ix = spl_token::instruction::initialize_mint(&SolPubkey::new_from_array(*token_program), &SolPubkey::new_from_array(*mint),
        &SolPubkey::new_from_array(*mint_authority), freeze.as_ref(), decimals).ok()?;
    let accounts = ix.accounts.iter().map(|m| AccountMeta { pubkey: m.pubkey.to_bytes(), is_signer: m.is_signer, is_writable: m.is_writable }).collect();
    Some(Instruction { program_id: ix.program_id.to_bytes(), accounts, data: ix.data })
}

/// Calls `spl_token::instruction::initialize_mint2`. Claimed: it fails
/// exactly when the token program id is not the SPL token program;
/// otherwise the data is tag 20, the decimals, the mint authority and the
/// optional freeze authority, and the only account is the writable mint.
#[verifier::external_body]
pub(crate) fn token_initialize_mint2(
    token_program: &Pubkey,
    mint: &Pubkey,
    mint_authority: &Pubkey,
    freeze_authority: Option<Pubkey>,
    decimals: u8,
) -> (r: Option<Instruction>)
    ensures
        r is None <==> *token_program != SPL_TOKEN_PROGRAM_ID,
        r matches Some(ix) ==> ix@ == (InstructionView {
            program_id: *token_program,
            accounts: seq![meta_writable(*mint, false)],
            data: initialize_mint_data(20, decimals, *mint_authority, freeze_authority),
        }),
{
    let freeze = freeze_authority.map(SolPubkey::new_from_array);
    let ix = spl_token::instruction::initialize_mint2(&SolPubkey::new_from_array(*token_program), &SolPubkey::new_from_array(*mint),
        &SolPubkey::new_from_array(*mint_authority), freeze.as_ref(), decimals).ok()?;
    let accounts = ix.accounts.iter().map(|m| AccountMeta { pubkey: m.pubkey.to_bytes(), is_signer: m.is_signer, is_writable: m.is_writable }).collect();
    Some(Instruction { program_id: ix.program_id.to_bytes(), accounts, data: ix.data })
}

/// Calls `spl_associated_token_account::instruction::create_associated_token_account`.
/// Claimed: the instruction targets the associated token program with the
/// one-byte data 0, and lists the funding account, the derived associated
/// token address (the program address of wallet, token program and mint
/// under the associated token program), the wallet, the mint, the system
/// program and the token program. The address search may fail only in the
/// case the `requires` leaves out, where the builder panics.
#[verifier::external_body]
pub(crate) fn ata_create(funding: &Pubkey, wallet: &Pubkey, mint: &Pubkey, token_program: &Pubkey) -> (ix: Instruction)
    requires
        ata_derivable(*wallet, *mint, *token_program),
    ensures
        ix@ == spec_ata_create_ix(*funding, *wallet, *mint, *token_program, 0),
{
    let ix = spl_associated_token_account::instruction::create_associated_token_account(
        &SolPubkey::new_from_array(*funding), &SolPubkey::new_from_array(*wallet), &SolPubkey::new_from_array(*mint), &SolPubkey::new_from_array(*token_program));
    let accounts = ix.accounts.iter().map(|m| AccountMeta { pubkey: m.pubkey.to_bytes(), is_signer: m.is_signer, is_writable: m.is_writable }).collect();
    Instruction { program_id: ix.program_id.to_bytes(), accounts, data: ix.data }
}

/// Calls `spl_associated_token_account::instruction::create_associated_token_account_idempotent`.
/// Claimed: as `ata_create`, with the one-byte data 1.
#[verifier::external_body]
pub(crate) fn ata_create_idempotent(funding: &Pubkey, wallet: &Pubkey, mint: &Pubkey, token_program: &Pubkey) -> (ix: Instruction)
    requires
        ata_derivable(*wallet, *mint, *token_program),
    ensures
        ix@ == spec_ata_create_ix(*funding, *wallet, *mint, *token_program, 1),
{
    let ix = spl_associated_token_account::instruction::create_associated_token_account_idempotent(
        &SolPubkey::new_from_array(*funding), &SolPubkey::new_from_array(*wallet), &SolPubkey::new_from_array(*mint), &SolPubkey::new_from_array(*token_program));
    let accounts = ix.accounts.iter().map(|m| AccountMeta { pubkey: m.pubkey.to_bytes(), is_signer: m.is_signer, is_writable: m.is_writable }).collect();
    Instruction { program_id: ix.program_id.to_bytes(), accounts, data: ix.data }
}

/// Whether an optional field's four-byte tag is valid: none or some.
pub open spec fn coption_tag_valid(t: Seq<u8>) -> bool {
    t == seq![0u8, 0u8, 0u8, 0u8] || t == seq![1u8, 0u8, 0u8, 0u8]
}

/// The balance of a token account as the token program reads it: the data
/// must be 165 bytes with valid optional-field tags (at 72, 109 and 129)
/// and a valid state byte (at 108: 0 uninitialized, 1 initialized, 2
/// frozen); an uninitialized account is refused; the balance is the
/// eight bytes at 64.
pub open spec fn spec_unpack_token_amount(d: Seq<u8>) -> Result<u64, crate::error::ProgramError> {
    if d.len() != 165 || !coption_tag_valid(d.subrange(72, 76)) || d[108] > 2
        || !coption_tag_valid(d.subrange(109, 113)) || !coption_tag_valid(d.subrange(129, 133)) {
        Err(crate::error::ProgramError::InvalidAccountData)
    } else if d[108] == 0 {
        Err(crate::error::ProgramError::UninitializedAccount)
    } else {
        Ok(crate::codec::dec_u64(d.subrange(64, 72)))
    }
}

/// Calls `spl_token::state::Account::unpack` and keeps the balance. Claimed:
/// the result is `spec_unpack_token_amount` of the data (the source checks
/// the length, the three optional-field tags and the state byte, refuses an
/// uninitialized account, and reads the balance at offset 64).
#[verifier::external_body]
pub(crate) fn unpack_token_amount(data: &[u8]) -> (r: Result<u64, crate::error::ProgramError>)
    ensures
        r == spec_unpack_token_amount(data@),
{
    match spl_token::state::Account::unpack(data) {
        Ok(account) => Ok(account.amount),
        Err(solana_program::program_error::ProgramError::UninitializedAccount) => Err(crate::error::ProgramError::UninitializedAccount),
        Err(_) => Err(crate::error::ProgramError::InvalidAccountData),
    }
}


/// Packed size of a token mint account.
pub const MINT_LEN: usize = 82;

/// The token instructions the programs pack by hand.
#[derive(Debug, Clone, Copy, PartialEq, Eq)]
pub enum TokenIx {
    InitializeMint { decimals: u8, mint_authority: Pubkey, freeze_authority: Option<Pubkey> },
    MintTo { amount: u64 },
}

/// The packed bytes of a token instruction.
pub open spec fn spec_token_pack(ix: TokenIx) -> Seq<u8> {
    match ix {
        TokenIx::InitializeMint { decimals, mint_authority, freeze_authority } =>
            initialize_mint_data(0, decimals, mint_authority, freeze_authority),
        TokenIx::MintTo { amount } => seq![7u8] + enc_u64(amount),
    }
}

/// Calls `spl_token::instruction::TokenInstruction::pack`. Claimed: an
/// initialize-mint packs as tag 0, the decimals, the mint authority and the
/// optional freeze authority (a flag byte, then the address when present);
/// a mint-to packs as tag 7 and the amount, little-endian.
#[verifier::external_body]
pub(crate) fn token_pack(ix: &TokenIx) -> (r: Vec<u8>)
    ensures
        r@ == spec_token_pack(*ix),
{
    let t = match ix {
        TokenIx::InitializeMint { decimals, mint_authority, freeze_authority } => TokenInstruction::InitializeMint {
            decimals: *decimals, mint_authority: (*mint_authority).into(), freeze_authority: freeze_authority.map(SolPubkey::from).into() },
        TokenIx::MintTo { amount } => TokenInstruction::MintTo { amount: *amount },
    };
    t.pack()
}

/// An optional 64-bit value as the metadata program lays it out.
pub open spec fn enc_u64_option(x: Option<u64>) -> Seq<u8> {
    match x {
        Some(v) => seq![1u8] + enc_u64(v),
        None => seq![0u8],
    }
}

/// The token metadata program's create-metadata-account (v3) instruction
/// with no creators, collection, uses or collection details and no rent
/// account: discriminator 33, then name, symbol and uri, the seller fee,
/// three absent options, the mutability flag and an absent option.
pub open spec fn spec_metadata_v3_ix(
    metadata: Pubkey,
    mint: Pubkey,
    mint_authority: Pubkey,
    payer: Pubkey,
    update_authority: Pubkey,
    update_authority_is_signer: bool,
    system_program: Pubkey,
    name: Seq<char>,
    symbol: Seq<char>,
    uri: Seq<char>,
    seller_fee_basis_points: u16,
    is_mutable: bool,
) -> InstructionView {
    InstructionView {
        program_id: TOKEN_METADATA_PROGRAM_ID,
        accounts: seq![
            meta_writable(metadata, false),
            meta_readonly(mint, false),
            meta_readonly(mint_authority, true),
            meta_writable(payer, true),
            meta_readonly(update_authority, update_authority_is_signer),
            meta_readonly(system_program, false),
        ],
        data: seq![33u8] + enc_string(name) + enc_string(symbol) + enc_string(uri) + enc_u16(seller_fee_basis_points)
            + seq![0u8, 0u8, 0u8] + enc_bool(is_mutable) + seq![0u8],
    }
}

/// Calls `mpl_token_metadata::instructions::CreateMetadataAccountV3::instruction`
/// with no creators, collection, uses, collection details or rent account.
/// Claimed: the instruction is `spec_metadata_v3_ix` of the arguments (the
/// generated builder lists the accounts in that order and serializes the
/// discriminator and the arguments with borsh). Strings too long for a
/// 32-bit length would make the builder panic; `requires` leaves them out.
#[verifier::external_body]
pub(crate) fn metadata_create_v3(
    metadata: Pubkey,
    mint: Pubkey,
    mint_authority: Pubkey,
    payer: Pubkey,
    update_authority: Pubkey,
    update_authority_is_signer: bool,
    system_program: Pubkey,
    name: &String,
    symbol: &String,
    uri: &String,
    seller_fee_basis_points: u16,
    is_mutable: bool,
) -> (ix: Instruction)
    requires
        string_fits(name@),
        string_fits(symbol@),
        string_fits(uri@),
    ensures
        ix@ == spec_metadata_v3_ix(metadata, mint, mint_authority, payer, update_authority, update_authority_is_signer,
            system_program, name@, symbol@, uri@, seller_fee_basis_points, is_mutable),
{
    let data = DataV2 { name: name.clone(), symbol: symbol.clone(), uri: uri.clone(), seller_fee_basis_points,
        creators: None, collection: None, uses: None };
    let ix = CreateMetadataAccountV3 { metadata: metadata.into(), mint: mint.into(), mint_authority: mint_authority.into(),
        payer: payer.into(), update_authority: (update_authority.into(), update_authority_is_signer),
        system_program: system_program.into(), rent: None }
        .instruction(CreateMetadataAccountV3InstructionArgs { data, is_mutable, collection_details: None });
    let accounts = ix.accounts.iter().map(|m| AccountMeta { pubkey: m.pubkey.to_bytes(), is_signer: m.is_signer, is_writable: m.is_writable }).collect();
    Instruction { program_id: ix.program_id.to_bytes(), accounts, data: ix.data }
}

/// The token metadata program's create-master-edition (v3) instruction with
/// no rent account: discriminator 17, then the optional maximum supply.
pub open spec fn spec_master_edition_v3_ix(
    edition: Pubkey,
    mint: Pubkey,
    update_authority: Pubkey,
    mint_authority: Pubkey,
    payer: Pubkey,
    metadata: Pubkey,
    token_program: Pubkey,
    system_program: Pubkey,
    max_supply: Option<u64>,
) -> InstructionView {
    InstructionView {
        program_id: TOKEN_METADATA_PROGRAM_ID,
        accounts: seq![
            meta_writable(edition, false),
            meta_writable(mint, false),
            meta_readonly(update_authority, true),
            meta_readonly(mint_authority, true),
            meta_writable(payer, true),
            meta_writable(metadata, false),
            meta_readonly(token_program, false),
            meta_readonly(system_program, false),
        ],
        data: seq![17u8] + enc_u64_option(max_supply),
    }
}

/// Calls `mpl_token_metadata::instructions::CreateMasterEditionV3::instruction`
/// with no rent account. Claimed: the instruction is
/// `spec_master_edition_v3_ix` of the arguments (accounts in the generated
/// builder's order, borsh-serialized discriminator and maximum supply).
#[verifier::external_body]
pub(crate) fn master_edition_create_v3(
    edition: Pubkey,
    mint: Pubkey,
    update_authority: Pubkey,
    mint_authority: Pubkey,
    payer: Pubkey,
    metadata: Pubkey,
    token_program: Pubkey,
    system_program: Pubkey,
    max_supply: Option<u64>,
) -> (ix: Instruction)
    ensures
        ix@ == spec_master_edition_v3_ix(edition, mint, update_authority, mint_authority, payer, metadata,
            token_program, system_program, max_supply),
{
    let ix = CreateMasterEditionV3 { edition: edition.into(), mint: mint.into(), update_authority: update_authority.into(),
        mint_authority: mint_authority.into(), payer: payer.into(), metadata: metadata.into(),
        token_program: token_program.into(), system_program: system_program.into(), rent: None }
        .instruction(CreateMasterEditionV3InstructionArgs { max_supply });
    let accounts = ix.accounts.iter().map(|m| AccountMeta { pubkey: m.pubkey.to_bytes(), is_signer: m.is_signer, is_writable: m.is_writable }).collect();
    Instruction { program_id: ix.program_id.to_bytes(), accounts, data: ix.data }
}

} // verus!
