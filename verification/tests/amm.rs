use solana_program::program_pack::Pack;
use solana_program::pubkey::Pubkey as SolPubkey;
use solana_programs::account::{AccountMeta, AccountState, Effect, Instruction};
use solana_programs::cp_amm::error::AmmErr;
use solana_programs::cp_amm::instruction::AmmInstruction;
use solana_programs::cp_amm::processor::processor;
use solana_programs::cp_amm::state::Pool;
use solana_programs::error::ProgramError;
use solana_programs::key::SPL_TOKEN_PROGRAM_ID;

fn k(n: u8) -> [u8; 32] {
    [n; 32]
}

fn acct(key: [u8; 32], owner: [u8; 32], data: Vec<u8>, is_signer: bool) -> AccountState {
    AccountState { key, owner, lamports: 1_000_000, data, is_signer, is_writable: true }
}

fn from_sol(ix: solana_program::instruction::Instruction) -> Instruction {
    Instruction {
        program_id: ix.program_id.to_bytes(),
        accounts: ix.accounts.iter().map(|m| AccountMeta { pubkey: m.pubkey.to_bytes(), is_signer: m.is_signer, is_writable: m.is_writable }).collect(),
        data: ix.data,
    }
}

fn sol(k: [u8; 32]) -> SolPubkey {
    SolPubkey::new_from_array(k)
}

fn token_account(amount: u64) -> Vec<u8> {
    let account = spl_token::state::Account {
        mint: sol(k(3)),
        owner: sol(k(4)),
        amount,
        state: spl_token::state::AccountState::Initialized,
        ..Default::default()
    };
    let mut data = vec![0u8; spl_token::state::Account::LEN];
    account.pack_into_slice(&mut data);
    data
}

fn pool(total_lp_supply: u64) -> Pool {
    Pool {
        is_initialized: true,
        authority_bump: 255,
        token_a_mint: k(3),
        token_b_mint: k(4),
        vault_a: k(5),
        vault_b: k(6),
        lp_mint: k(7),
        fee_bps: 30,
        total_lp_supply,
    }
}

#[test]
fn amm_instruction_roundtrip_and_errors() {
    for i in [
        AmmInstruction::InitializePool { fee_bps: 30 },
        AmmInstruction::AddLiquidity { amount_a: 1, amount_b: 2, min_lp: 3 },
        AmmInstruction::RemoveLiquidity { lp_amount: 4, min_a: 5, min_b: 6 },
        AmmInstruction::SwapExactIn { amount_in: 7, min_out: 8 },
    ] {
        assert_eq!(AmmInstruction::try_from_slice(&i.to_bytes()), Some(i));
    }
    assert_eq!(Pool::try_from_slice(&pool(9).to_bytes()), Some(pool(9)));
    assert_eq!(ProgramError::from(AmmErr::AlreadyInitialized), ProgramError::Custom(0));
    assert_eq!(ProgramError::from(AmmErr::SlippageExceeded), ProgramError::Custom(6));
}

fn init_accounts(program: [u8; 32]) -> Vec<AccountState> {
    vec![
        acct(k(1), k(0), vec![], true),
        acct(k(2), program, vec![0; Pool::LEN], false),
        acct(k(3), k(0), vec![], false),
        acct(k(4), k(0), vec![], false),
        acct(k(5), k(0), vec![], false),
        acct(k(6), k(0), vec![], false),
        acct(k(7), k(0), vec![], false),
        acct(k(8), k(0), vec![], false),
        acct(SPL_TOKEN_PROGRAM_ID, k(0), vec![], false),
    ]
}

#[test]
fn initialize_pool_records_vaults_and_bump() {
    let program = k(100);
    let accounts = init_accounts(program);
    let (_, bump) = SolPubkey::find_program_address(&[b"authority", &k(2)], &sol(program));
    let effects = processor::initialize_pool(&program, &accounts, 30).unwrap();
    let mut expected = pool(0);
    expected.authority_bump = bump;
    assert_eq!(effects, vec![Effect::WriteData { account: 1, bytes: expected.to_bytes() }]);
    let data = AmmInstruction::InitializePool { fee_bps: 30 }.to_bytes();
    assert_eq!(processor::process(&program, &accounts, &data).unwrap(), effects);
    let mut initialized = init_accounts(program);
    initialized[1].data = expected.to_bytes();
    assert_eq!(processor::initialize_pool(&program, &initialized, 30), Err(ProgramError::Custom(0)));
    let mut unsigned = init_accounts(program);
    unsigned[0].is_signer = false;
    assert_eq!(processor::initialize_pool(&program, &unsigned, 30), Err(ProgramError::MissingRequiredSignature));
    let mut foreign = init_accounts(program);
    foreign[1].owner = k(1);
    assert_eq!(processor::initialize_pool(&program, &foreign, 30), Err(ProgramError::IncorrectProgramId));
}

fn deposit_accounts(p: Pool, signer: bool) -> Vec<AccountState> {
    vec![
        acct(k(1), k(0), vec![], signer),
        acct(k(11), SPL_TOKEN_PROGRAM_ID, vec![], false),
        acct(k(12), SPL_TOKEN_PROGRAM_ID, vec![], false),
        acct(k(2), k(100), p.to_bytes(), false),
        acct(k(5), SPL_TOKEN_PROGRAM_ID, token_account(1_000), false),
        acct(k(6), SPL_TOKEN_PROGRAM_ID, token_account(4_000), false),
        acct(k(7), SPL_TOKEN_PROGRAM_ID, vec![], false),
        acct(k(13), SPL_TOKEN_PROGRAM_ID, vec![], false),
        acct(SPL_TOKEN_PROGRAM_ID, k(0), vec![], false),
    ]
}

#[test]
fn add_liquidity_moves_both_tokens() {
    let program = k(100);
    let accounts = deposit_accounts(pool(10), false);
    let effects = processor::add_liquidity(&program, &accounts, 100, 400, 1).unwrap();
    let a = spl_token::instruction::transfer(&spl_token::id(), &sol(k(11)), &sol(k(5)), &sol(k(1)), &[], 100).unwrap();
    let b = spl_token::instruction::transfer(&spl_token::id(), &sol(k(12)), &sol(k(6)), &sol(k(1)), &[], 400).unwrap();
    assert_eq!(
        effects,
        vec![
            Effect::Invoke { instruction: from_sol(a), accounts: vec![1, 4, 0, 8], signer_seeds: vec![] },
            Effect::Invoke { instruction: from_sol(b), accounts: vec![0, 5, 2, 8], signer_seeds: vec![] },
        ]
    );
    // the deposit is refused when the depositor signs
    assert_eq!(processor::add_liquidity(&program, &deposit_accounts(pool(10), true), 100, 400, 1), Err(ProgramError::MissingRequiredSignature));
    let mut fresh = pool(0);
    fresh.is_initialized = false;
    assert_eq!(processor::add_liquidity(&program, &deposit_accounts(fresh, false), 100, 400, 1), Err(ProgramError::Custom(1)));
}

fn withdraw_accounts(p: Pool) -> Vec<AccountState> {
    vec![
        acct(k(1), k(0), vec![], true),
        acct(k(13), SPL_TOKEN_PROGRAM_ID, vec![], false),
        acct(k(7), SPL_TOKEN_PROGRAM_ID, vec![], false),
        acct(k(2), k(100), p.to_bytes(), false),
        acct(k(5), SPL_TOKEN_PROGRAM_ID, token_account(1_000), false),
        acct(k(6), SPL_TOKEN_PROGRAM_ID, token_account(4_000), false),
        acct(k(11), SPL_TOKEN_PROGRAM_ID, vec![], false),
        acct(k(12), SPL_TOKEN_PROGRAM_ID, vec![], false),
        acct(SPL_TOKEN_PROGRAM_ID, k(0), vec![], false),
    ]
}

#[test]
fn remove_liquidity_pays_a_pro_rata_share() {
    let program = k(100);
    let accounts = withdraw_accounts(pool(100));
    let effects = processor::remove_liquidity(&program, &accounts, 25, 250, 1_000).unwrap();
    let (authority, bump) = SolPubkey::find_program_address(&[b"auhtority", &k(2)], &sol(program));
    let burn = spl_token::instruction::burn(&spl_token::id(), &sol(k(13)), &sol(k(7)), &sol(k(1)), &[], 25).unwrap();
    let pay_a = spl_token::instruction::transfer(&spl_token::id(), &sol(k(5)), &sol(k(11)), &authority, &[], 250).unwrap();
    let pay_b = spl_token::instruction::transfer(&spl_token::id(), &sol(k(6)), &sol(k(12)), &authority, &[], 1_000).unwrap();
    let seeds = vec![vec![b"authority".to_vec(), k(2).to_vec(), vec![bump]]];
    assert_eq!(
        effects,
        vec![
            Effect::Invoke { instruction: from_sol(burn), accounts: vec![1, 2, 0, 8], signer_seeds: vec![] },
            Effect::Invoke { instruction: from_sol(pay_a), accounts: vec![4, 6, 8], signer_seeds: seeds.clone() },
            Effect::Invoke { instruction: from_sol(pay_b), accounts: vec![5, 7, 8], signer_seeds: seeds },
            Effect::WriteData { account: 3, bytes: pool(75).to_bytes() },
        ]
    );
    assert_eq!(processor::remove_liquidity(&program, &accounts, 25, 251, 0), Err(ProgramError::Custom(6)));
    assert_eq!(processor::remove_liquidity(&program, &withdraw_accounts(pool(0)), 25, 0, 0), Err(ProgramError::Custom(1)));
    let mut bad_vault = withdraw_accounts(pool(100));
    bad_vault[4].data = vec![0; 165];
    assert_eq!(processor::remove_liquidity(&program, &bad_vault, 25, 0, 0), Err(ProgramError::UninitializedAccount));
    bad_vault[4].data = vec![0; 10];
    assert_eq!(processor::remove_liquidity(&program, &bad_vault, 25, 0, 0), Err(ProgramError::InvalidAccountData));
}

#[test]
fn swaps_are_refused() {
    let program = k(100);
    let data = AmmInstruction::SwapExactIn { amount_in: 1, min_out: 1 }.to_bytes();
    assert_eq!(processor::process(&program, &withdraw_accounts(pool(1)), &data), Err(ProgramError::InvalidInstructionData));
    assert_eq!(processor::process(&program, &withdraw_accounts(pool(1)), &[42]), Err(ProgramError::InvalidInstructionData));
}
