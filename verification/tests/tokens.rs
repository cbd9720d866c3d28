use solana_program::pubkey::Pubkey as SolPubkey;
use solana_programs::account::{AccountMeta, AccountState, Effect, Instruction};
use solana_programs::create_spl_token::{process_instruction as create_token_process, CreateTokenArgs};
use solana_programs::cpi::MINT_LEN;
use solana_programs::error::ProgramError;
use solana_programs::key::{ASSOCIATED_TOKEN_PROGRAM_ID, SPL_TOKEN_PROGRAM_ID, SYSTEM_PROGRAM_ID, TOKEN_METADATA_PROGRAM_ID};
use solana_programs::mint_nft::create::{create_token, TokenParameters};
use solana_programs::mint_nft::mint::mint_to as nft_mint_to;
use solana_programs::pda_mint::create::TokenArgs;
use solana_programs::pda_mint::mint::{mint_to as pda_mint_to, try_mint_to};
use solana_programs::pda_mint::pda_authority::{init_pda, MintAuthorityPda};
use solana_programs::pda_mint::processor::{process_instruction as pda_mint_process, MyInstruction};
use solana_programs::transfer_token::create::{create_mint as transfer_create_mint, TokenParamter, MINT_DECIMALS};
use solana_programs::transfer_token::mint_nft::mint_nft;
use solana_programs::transfer_token::mint_spl::{mint_token, MintQunatity};
use solana_programs::transfer_token::processor::process_instruction as token_ops_process;
use solana_programs::transfer_token::transfer::{transfer_token, TokenQuantity};

fn k(n: u8) -> [u8; 32] {
    [n; 32]
}

fn acct(key: [u8; 32], lamports: u64) -> AccountState {
    AccountState { key, owner: [0; 32], lamports, data: vec![], is_signer: true, is_writable: true }
}

fn from_sol(ix: solana_program::instruction::Instruction) -> Instruction {
    Instruction {
        program_id: ix.program_id.to_bytes(),
        accounts: ix.accounts.iter().map(|m| AccountMeta { pubkey: m.pubkey.to_bytes(), is_signer: m.is_signer, is_writable: m.is_writable }).collect(),
        data: ix.data,
    }
}

fn sol(k: [u8; 32]) -> SolPubkey {
    SolPubkey::new_from_array(k)
}

fn invoke(instruction: Instruction, accounts: Vec<usize>) -> Effect {
    Effect::Invoke { instruction, accounts, signer_seeds: vec![] }
}

fn borsh_string(s: &str) -> Vec<u8> {
    let mut out = (s.len() as u32).to_le_bytes().to_vec();
    out.extend_from_slice(s.as_bytes());
    out
}

/// The metadata instruction as laid out by hand: discriminator, strings,
/// no seller fee, no creators, collection or uses, immutable, no details.
fn metadata_ix(metadata: [u8; 32], mint: [u8; 32], authority: [u8; 32], payer: [u8; 32], name: &str, symbol: &str, uri: &str) -> Instruction {
    let mut data = vec![33];
    data.extend(borsh_string(name));
    data.extend(borsh_string(symbol));
    data.extend(borsh_string(uri));
    data.extend_from_slice(&[0, 0, 0, 0, 0, 0, 0]);
    Instruction {
        program_id: TOKEN_METADATA_PROGRAM_ID,
        accounts: vec![
            AccountMeta { pubkey: metadata, is_signer: false, is_writable: true },
            AccountMeta { pubkey: mint, is_signer: false, is_writable: false },
            AccountMeta { pubkey: authority, is_signer: true, is_writable: false },
            AccountMeta { pubkey: payer, is_signer: true, is_writable: true },
            AccountMeta { pubkey: authority, is_signer: true, is_writable: false },
            AccountMeta { pubkey: SYSTEM_PROGRAM_ID, is_signer: false, is_writable: false },
        ],
        data,
    }
}

fn edition_ix(edition: [u8; 32], mint: [u8; 32], update: [u8; 32], mint_authority: [u8; 32], payer: [u8; 32], metadata: [u8; 32], supply: u64) -> Instruction {
    let mut data = vec![17, 1];
    data.extend_from_slice(&supply.to_le_bytes());
    Instruction {
        program_id: TOKEN_METADATA_PROGRAM_ID,
        accounts: vec![
            AccountMeta { pubkey: edition, is_signer: false, is_writable: true },
            AccountMeta { pubkey: mint, is_signer: false, is_writable: true },
            AccountMeta { pubkey: update, is_signer: true, is_writable: false },
            AccountMeta { pubkey: mint_authority, is_signer: true, is_writable: false },
            AccountMeta { pubkey: payer, is_signer: true, is_writable: true },
            AccountMeta { pubkey: metadata, is_signer: false, is_writable: true },
            AccountMeta { pubkey: SPL_TOKEN_PROGRAM_ID, is_signer: false, is_writable: false },
            AccountMeta { pubkey: SYSTEM_PROGRAM_ID, is_signer: false, is_writable: false },
        ],
        data,
    }
}

fn seven_accounts() -> Vec<AccountState> {
    vec![acct(k(1), 0), acct(k(2), 0), acct(k(3), 0), acct(k(4), 9_999_999), acct(SYSTEM_PROGRAM_ID, 1), acct(SPL_TOKEN_PROGRAM_ID, 1), acct(TOKEN_METADATA_PROGRAM_ID, 1)]
}

#[test]
fn create_token_args_roundtrip() {
    let args = CreateTokenArgs { token_title: "Solana Gold".to_string(), token_symbol: "GOLDSOL".to_string(), token_uri: "https://é.example/x.json".to_string(), token_decimals: 9 };
    let bytes = args.to_bytes();
    let back = CreateTokenArgs::try_from_slice(&bytes).unwrap();
    assert_eq!((back.token_title, back.token_symbol, back.token_uri, back.token_decimals), (args.token_title, args.token_symbol, args.token_uri, 9));
    assert!(CreateTokenArgs::try_from_slice(&bytes[..bytes.len() - 1]).is_none());
    let mut invalid = borsh_string("ab");
    invalid[4] = 0xff;
    invalid.extend(borsh_string("c"));
    invalid.extend(borsh_string("d"));
    invalid.push(0);
    assert!(CreateTokenArgs::try_from_slice(&invalid).is_none());
}

#[test]
fn create_spl_token_creates_mint_and_metadata() {
    let args = CreateTokenArgs { token_title: "Gold".to_string(), token_symbol: "GLD".to_string(), token_uri: "u".to_string(), token_decimals: 6 };
    let accounts = seven_accounts();
    let effects = create_token_process(&k(50), &accounts, &args.to_bytes(), 1_461_600).unwrap();
    let create = solana_program::system_instruction::create_account(&sol(k(4)), &sol(k(1)), 1_461_600, MINT_LEN as u64, &spl_token::id());
    let init = spl_token::instruction::initialize_mint2(&spl_token::id(), &sol(k(1)), &sol(k(2)), Some(&sol(k(2))), 6).unwrap();
    assert_eq!(
        effects,
        vec![
            Effect::InvokeUnchecked { instruction: from_sol(create), accounts: vec![3, 0, 4, 5] },
            invoke(from_sol(init), vec![0, 1, 5]),
            invoke(metadata_ix(k(3), k(1), k(2), k(4), "Gold", "GLD", "u"), vec![2, 0, 1, 3, 6]),
        ]
    );
    let mut no_token = seven_accounts();
    no_token[5].key = k(5);
    assert_eq!(create_token_process(&k(50), &no_token, &args.to_bytes(), 1), Err(ProgramError::IncorrectProgramId));
    assert_eq!(create_token_process(&k(50), &accounts, &[1, 2, 3], 1), Err(ProgramError::BorshIoError));
    assert_eq!(create_token_process(&k(50), &accounts[..6], &args.to_bytes(), 1), Err(ProgramError::NotEnoughAccountKeys));
}

#[test]
fn metadata_builder_agrees_with_the_stated_layout() {
    let built = mpl_token_metadata::instructions::CreateMetadataAccountV3 {
        metadata: sol(k(3)),
        mint: sol(k(1)),
        mint_authority: sol(k(2)),
        payer: sol(k(4)),
        update_authority: (sol(k(2)), true),
        system_program: solana_program::system_program::id(),
        rent: None,
    }
    .instruction(mpl_token_metadata::instructions::CreateMetadataAccountV3InstructionArgs {
        data: mpl_token_metadata::types::DataV2 { name: "N".to_string(), symbol: "S".to_string(), uri: "U".to_string(), seller_fee_basis_points: 0, creators: None, collection: None, uses: None },
        is_mutable: false,
        collection_details: None,
    });
    assert_eq!(from_sol(built), metadata_ix(k(3), k(1), k(2), k(4), "N", "S", "U"));
}

#[test]
fn nft_creation_and_minting() {
    let params = TokenParameters { nft_title: "Ape".to_string(), nft_symbol: "APE".to_string(), nft_url: "ipfs://a".to_string() };
    let accounts = seven_accounts();
    let effects = create_token(&accounts, &params.to_bytes(), 1_461_600).unwrap();
    let init = spl_token::instruction::initialize_mint(&spl_token::id(), &sol(k(1)), &sol(k(2)), Some(&sol(k(2))), 0).unwrap();
    assert_eq!(effects[1], invoke(from_sol(init), vec![0, 1, 5]));
    assert_eq!(effects[2], invoke(metadata_ix(k(3), k(1), k(2), k(4), "Ape", "APE", "ipfs://a"), vec![2, 0, 1, 3, 6]));
    assert_eq!(create_token(&accounts, &[0], 1), Err(ProgramError::BorshIoError));

    let mint_accounts = vec![
        acct(k(1), 1),
        acct(k(2), 1),
        acct(k(3), 1),
        acct(k(8), 0),
        acct(k(9), 0),
        acct(k(4), 1),
        acct(SYSTEM_PROGRAM_ID, 1),
        acct(SPL_TOKEN_PROGRAM_ID, 1),
        acct(ASSOCIATED_TOKEN_PROGRAM_ID, 1),
        acct(TOKEN_METADATA_PROGRAM_ID, 1),
    ];
    let minted = nft_mint_to(&mint_accounts).unwrap();
    let ata = spl_associated_token_account::instruction::create_associated_token_account(&sol(k(9)), &sol(k(4)), &sol(k(1)), &spl_token::id());
    let mint = spl_token::instruction::mint_to(&spl_token::id(), &sol(k(1)), &sol(k(9)), &sol(k(2)), &[&sol(k(2))], 1).unwrap();
    assert_eq!(
        minted,
        vec![
            invoke(from_sol(ata), vec![0, 4, 5, 7, 8]),
            invoke(from_sol(mint), vec![0, 1, 4, 7]),
            invoke(edition_ix(k(8), k(1), k(2), k(2), k(4), k(3), 1), vec![3, 2, 0, 1, 5, 9]),
        ]
    );
    let mut existing = mint_accounts.clone();
    existing[4].lamports = 5;
    assert_eq!(nft_mint_to(&existing).unwrap().len(), 2);
}

#[test]
fn pda_mint_authority_flow() {
    let program = k(60);
    let (authority, bump) = SolPubkey::find_program_address(&[b"mint_authority"], &sol(program));
    let authority = authority.to_bytes();
    let init_accounts = vec![acct(authority, 0), acct(k(4), 9_999), acct(SYSTEM_PROGRAM_ID, 1)];
    let created = init_pda(&program, &init_accounts, 897_840).unwrap();
    let create = solana_program::system_instruction::create_account(&sol(k(4)), &sol(authority), 897_840, MintAuthorityPda::LEN as u64, &sol(program));
    assert_eq!(
        created,
        vec![
            Effect::Invoke { instruction: from_sol(create), accounts: vec![0, 1, 2], signer_seeds: vec![vec![b"mint_authority".to_vec(), vec![bump]]] },
            Effect::WriteData { account: 0, bytes: vec![bump] },
        ]
    );
    assert_eq!(pda_mint_process(&program, &init_accounts, &[0], 897_840).unwrap().unwrap(), created);
    let mut elsewhere = init_accounts.clone();
    elsewhere[0].key = k(5);
    assert_eq!(init_pda(&program, &elsewhere, 1), Err(ProgramError::InvalidSeeds));

    let mint_accounts = vec![
        acct(k(1), 1),
        acct(k(3), 1),
        acct(authority, 1),
        acct(k(9), 0),
        acct(k(8), 0),
        acct(k(4), 1),
        acct(SYSTEM_PROGRAM_ID, 1),
        acct(SPL_TOKEN_PROGRAM_ID, 1),
        acct(ASSOCIATED_TOKEN_PROGRAM_ID, 1),
        acct(TOKEN_METADATA_PROGRAM_ID, 1),
    ];
    let minted = pda_mint_to(&program, &mint_accounts).unwrap();
    let seeds = vec![vec![b"mint_authority".to_vec(), vec![bump]]];
    let ata = spl_associated_token_account::instruction::create_associated_token_account(&sol(k(4)), &sol(k(4)), &sol(k(1)), &spl_token::id());
    let mint = spl_token::instruction::mint_to(&spl_token::id(), &sol(k(1)), &sol(k(9)), &sol(k(4)), &[&sol(authority)], 1).unwrap();
    assert_eq!(
        minted,
        vec![
            invoke(from_sol(ata), vec![0, 3, 5, 7, 8]),
            Effect::Invoke { instruction: from_sol(mint), accounts: vec![0, 2, 3, 7], signer_seeds: seeds.clone() },
            Effect::Invoke { instruction: edition_ix(k(8), k(1), authority, authority, k(4), k(3), 1), accounts: vec![4, 1, 0, 2, 5, 9, 5], signer_seeds: seeds },
        ]
    );
    assert_eq!(pda_mint_process(&program, &mint_accounts, &[2], 0).unwrap().unwrap(), minted);
    let mut wrong_authority = mint_accounts.clone();
    wrong_authority[2].key = k(7);
    assert!(try_mint_to(&program, &wrong_authority).is_none());
    assert!(pda_mint_process(&program, &wrong_authority, &[2], 0).is_none());
    assert_eq!(pda_mint_process(&program, &mint_accounts, &[3], 0), Some(Err(ProgramError::BorshIoError)));
}

#[test]
fn pda_mint_creates_the_mint() {
    let program = k(60);
    let args = TokenArgs { nft_name: "N".to_string(), nft_symbol: "S".to_string(), nft_url: "U".to_string() };
    let mut data = vec![1];
    data.extend(args.to_bytes());
    match MyInstruction::try_from_slice(&data) {
        Some(MyInstruction::CreateNft(t)) => assert_eq!((t.nft_name.as_str(), t.nft_symbol.as_str(), t.nft_url.as_str()), ("N", "S", "U")),
        _ => panic!("expected token creation"),
    }
    let effects = pda_mint_process(&program, &seven_accounts(), &data, 1_461_600).unwrap().unwrap();
    let create = solana_program::system_instruction::create_account(&sol(k(4)), &sol(k(1)), 1_461_600, MINT_LEN as u64, &spl_token::id());
    let init = spl_token::instruction::initialize_mint(&spl_token::id(), &sol(k(1)), &sol(k(2)), Some(&sol(k(2))), 0).unwrap();
    assert_eq!(
        effects,
        vec![
            invoke(from_sol(create), vec![0, 3, 4, 5]),
            invoke(from_sol(init), vec![0, 1, 5, 3]),
            Effect::Invoke { instruction: metadata_ix(k(3), k(1), k(2), k(4), "N", "S", "U"), accounts: vec![2, 0, 1, 3, 6, 3], signer_seeds: vec![vec![]] },
        ]
    );
    let mut funded = seven_accounts();
    funded[0].lamports = 10;
    assert_eq!(pda_mint_process(&program, &funded, &data, 1).unwrap().unwrap().len(), 2);
}

#[test]
fn token_operations() {
    let params = TokenParamter { token_title: "T".to_string(), token_sym: "TT".to_string(), token_url: "x".to_string(), decimals: 2 };
    let accounts = seven_accounts();
    let effects = transfer_create_mint(&accounts, &params.to_bytes(), 1_461_600).unwrap();
    let init = spl_token::instruction::initialize_mint(&spl_token::id(), &sol(k(1)), &sol(k(2)), Some(&sol(k(2))), MINT_DECIMALS).unwrap();
    assert_eq!(MINT_DECIMALS, 9);
    assert_eq!(effects[1], invoke(from_sol(init), vec![0, 1, 5]));
    // the metadata instruction goes to the account passed as the token program
    let mut metadata = metadata_ix(k(3), k(1), k(2), k(4), "T", "TT", "x");
    metadata.program_id = accounts[5].key;
    assert_eq!(accounts[5].key, SPL_TOKEN_PROGRAM_ID);
    assert_eq!(effects[2], invoke(metadata, vec![2, 0, 1, 3, 1, 4]));
    let mut data = vec![0];
    data.extend(params.to_bytes());
    assert_eq!(token_ops_process(&k(50), &accounts, &data, 1_461_600).unwrap(), effects);
    assert_eq!(token_ops_process(&k(50), &accounts, &[], 1), Err(ProgramError::BorshIoError));

    let spl_accounts = vec![acct(k(1), 1), acct(k(2), 1), acct(k(3), 1), acct(k(4), 1), acct(SPL_TOKEN_PROGRAM_ID, 1), acct(SYSTEM_PROGRAM_ID, 1), acct(k(9), 7)];
    let minted = mint_token(&spl_accounts, MintQunatity { quantity: 500 }).unwrap();
    let mint = spl_token::instruction::mint_to(&spl_token::id(), &sol(k(1)), &sol(k(9)), &sol(k(4)), &[&sol(k(4))], 500).unwrap();
    assert_eq!(minted, vec![invoke(from_sol(mint), vec![0, 1, 6, 4])]);
    let mut spl_data = vec![2];
    spl_data.extend_from_slice(&500u64.to_le_bytes());
    assert_eq!(token_ops_process(&k(50), &spl_accounts, &spl_data, 0).unwrap(), minted);

    let transfer_accounts = vec![
        acct(k(1), 1),
        acct(k(2), 1),
        acct(k(3), 0),
        acct(k(4), 1),
        acct(k(5), 1),
        acct(k(6), 1),
        acct(SYSTEM_PROGRAM_ID, 1),
        acct(SPL_TOKEN_PROGRAM_ID, 1),
        acct(ASSOCIATED_TOKEN_PROGRAM_ID, 1),
    ];
    let moved = transfer_token(&transfer_accounts, TokenQuantity { quantity: 42 }).unwrap();
    let ata = spl_associated_token_account::instruction::create_associated_token_account(&sol(k(6)), &sol(k(5)), &sol(k(1)), &spl_token::id());
    let transfer = spl_token::instruction::transfer(&spl_token::id(), &sol(k(2)), &sol(k(3)), &sol(k(4)), &[&sol(k(6))], 42).unwrap();
    assert_eq!(moved, vec![invoke(from_sol(ata), vec![0, 2, 4, 5, 6, 7, 8]), invoke(from_sol(transfer), vec![0, 1, 2, 3, 4, 7])]);
    let mut no_token = transfer_accounts.clone();
    no_token[7].key = k(7);
    no_token[2].lamports = 1;
    assert_eq!(transfer_token(&no_token, TokenQuantity { quantity: 42 }), Err(ProgramError::IncorrectProgramId));
    let mut t_data = vec![3];
    t_data.extend_from_slice(&42u64.to_le_bytes());
    assert_eq!(token_ops_process(&k(50), &transfer_accounts, &t_data, 0).unwrap(), moved);
}

#[test]
fn nft_minting_with_a_derived_edition() {
    let accounts = vec![
        acct(k(1), 1),
        acct(k(2), 1),
        acct(k(3), 1),
        acct(k(8), 1),
        acct(k(9), 5),
        acct(k(4), 1),
        acct(SYSTEM_PROGRAM_ID, 1),
        acct(SPL_TOKEN_PROGRAM_ID, 1),
        acct(ASSOCIATED_TOKEN_PROGRAM_ID, 1),
        acct(TOKEN_METADATA_PROGRAM_ID, 1),
    ];
    let effects = mint_nft(&accounts, 1).unwrap();
    let metadata_program = sol(TOKEN_METADATA_PROGRAM_ID);
    let (edition, _) = SolPubkey::find_program_address(&[b"metadata", metadata_program.as_ref(), &k(1), b"edition"], &metadata_program);
    let mint = Instruction {
        program_id: SPL_TOKEN_PROGRAM_ID,
        accounts: vec![
            AccountMeta { pubkey: k(1), is_signer: false, is_writable: true },
            AccountMeta { pubkey: k(4), is_signer: false, is_writable: true },
            AccountMeta { pubkey: k(2), is_signer: true, is_writable: false },
        ],
        data: vec![7, 1, 0, 0, 0, 0, 0, 0, 0],
    };
    assert_eq!(
        effects,
        vec![invoke(mint, vec![0, 5, 1]), invoke(edition_ix(edition.to_bytes(), k(1), k(2), k(4), k(4), k(3), 1), vec![3, 0, 1, 5, 2, 9])]
    );
    assert_eq!(token_ops_process(&k(50), &accounts, &[1], 0).unwrap(), effects);
    let mut fresh = accounts.clone();
    fresh[4].lamports = 0;
    let with_ata = mint_nft(&fresh, 1).unwrap();
    let ata = spl_associated_token_account::instruction::create_associated_token_account_idempotent(
        &sol(k(4)), &sol(k(4)), &sol(k(9)), &sol(ASSOCIATED_TOKEN_PROGRAM_ID));
    assert_eq!(with_ata[0], invoke(from_sol(ata), vec![5, 5, 0, 4, 6, 7]));
    assert_eq!(with_ata[1..], effects[..]);
}

#[test]
fn metadata_goes_to_the_program_account_passed() {
    let args = CreateTokenArgs { token_title: "Gold".to_string(), token_symbol: "GLD".to_string(), token_uri: "u".to_string(), token_decimals: 6 };
    let mut accounts = seven_accounts();
    accounts[6].key = k(66);
    let effects = create_token_process(&k(50), &accounts, &args.to_bytes(), 1).unwrap();
    let mut expected = metadata_ix(k(3), k(1), k(2), k(4), "Gold", "GLD", "u");
    expected.program_id = k(66);
    assert_eq!(effects[2], invoke(expected, vec![2, 0, 1, 3, 6]));
}
