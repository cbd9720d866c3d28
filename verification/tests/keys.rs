use solana_programs::account::AccountState;
use solana_programs::account::clock_unix_timestamp;
use solana_programs::cpi::{ata_address, MINT_LEN};
use solana_programs::error::ProgramError;
use solana_programs::key::{ASSOCIATED_TOKEN_PROGRAM_ID, CLOCK_SYSVAR_ID, RENT_SYSVAR_ID, SPL_TOKEN_PROGRAM_ID, SYSTEM_PROGRAM_ID, TOKEN_METADATA_PROGRAM_ID};
use solana_program::program_pack::Pack;
use solana_program::pubkey::Pubkey as SolPubkey;

#[test]
fn program_ids_match_the_published_ones() {
    assert_eq!(SYSTEM_PROGRAM_ID, solana_system_interface::program::ID.to_bytes());
    assert_eq!(SPL_TOKEN_PROGRAM_ID, spl_token::id().to_bytes());
    assert_eq!(ASSOCIATED_TOKEN_PROGRAM_ID, spl_associated_token_account::id().to_bytes());
    assert_eq!(TOKEN_METADATA_PROGRAM_ID, mpl_token_metadata::ID.to_bytes());
    assert_eq!(RENT_SYSVAR_ID, solana_program::sysvar::rent::id().to_bytes());
    assert_eq!(CLOCK_SYSVAR_ID, solana_program::sysvar::clock::id().to_bytes());
    assert_eq!(MINT_LEN, spl_token::state::Mint::LEN);
}

#[test]
fn associated_token_address_is_the_derived_one() {
    let wallet = [7u8; 32];
    let mint = [8u8; 32];
    let expected = spl_associated_token_account::get_associated_token_address(&SolPubkey::new_from_array(wallet), &SolPubkey::new_from_array(mint));
    assert_eq!(ata_address(&wallet, &mint, &SPL_TOKEN_PROGRAM_ID), Some(expected.to_bytes()));
    assert_ne!(ata_address(&wallet, &mint, &SPL_TOKEN_PROGRAM_ID), Some(wallet));
}

#[test]
fn clock_timestamp_is_read_from_the_clock_account() {
    let mut data = vec![0u8; 40];
    data[32..40].copy_from_slice(&(-42i64).to_le_bytes());
    let clock = AccountState { key: CLOCK_SYSVAR_ID, owner: [0; 32], lamports: 1, data, is_signer: false, is_writable: false };
    assert_eq!(clock_unix_timestamp(&clock), Ok(-42));
    let mut short = clock.clone();
    short.data.truncate(39);
    assert_eq!(clock_unix_timestamp(&short), Err(ProgramError::InvalidArgument));
    let mut other = clock.clone();
    other.key = [1; 32];
    assert_eq!(clock_unix_timestamp(&other), Err(ProgramError::InvalidArgument));
}
