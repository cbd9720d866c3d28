use solana_program::pubkey::Pubkey as SolPubkey;
use solana_programs::account::{AccountMeta, AccountState, Effect, Instruction};
use solana_programs::error::ProgramError;
use solana_programs::key::SPL_TOKEN_PROGRAM_ID;
use solana_programs::solend::error::LendError;
use solana_programs::solend::instruction::{LendInstruction, ReserveParams};
use solana_programs::solend::math::RAY;
use solana_programs::solend::processor::{add_reserve, borrow, deposit, init_market, withdraw};
use solana_programs::solend::state::{Market, Obligations, Position, Reserve};

fn k(n: u8) -> [u8; 32] {
    [n; 32]
}

fn acct(key: [u8; 32], owner: [u8; 32], lamports: u64, data: Vec<u8>, is_signer: bool) -> AccountState {
    AccountState { key, owner, lamports, data, is_signer, is_writable: true }
}

fn from_sol(ix: solana_program::instruction::Instruction) -> Instruction {
    Instruction {
        program_id: ix.program_id.to_bytes(),
        accounts: ix.accounts.iter().map(|m| AccountMeta { pubkey: m.pubkey.to_bytes(), is_signer: m.is_signer, is_writable: m.is_writable }).collect(),
        data: ix.data,
    }
}

fn sol(k: [u8; 32]) -> SolPubkey {
    SolPubkey::new_from_array(k)
}

fn params() -> ReserveParams {
    ReserveParams {
        base_rate_per_year_bps: 100,
        slope1_bps: 400,
        slope2_bps: 6_000,
        kink_bps: 8_000,
        ltv_bps: 7_500,
        liquidation_threshold_bps: 8_000,
        liquidation_bonus_bps: 500,
        decimals: 6,
    }
}

fn market(paused: bool) -> Market {
    Market { admin: k(1), oracle_program_id: k(9), bump: 0, paused }
}

fn reserve(scaled_deposits: u128, scaled_borrows: u128) -> Reserve {
    Reserve {
        market: k(20),
        token_mint: k(30),
        vault: k(31),
        decimals: 6,
        base_rate_per_year_bps: 100,
        slope1_bps: 400,
        slope2_bps: 6_000,
        kink_bps: 8_000,
        liquidity_index: RAY,
        borrow_index: RAY,
        last_update: 100,
        total_scaled_deposits: scaled_deposits,
        total_scaled_borrows: scaled_borrows,
        ltv_bps: 7_500,
        liquidation_threshold_bps: 8_000,
        liquidation_bonus_bps: 500,
        bump: 0,
        paused: false,
    }
}

fn empty_obligation() -> Obligations {
    Obligations { market: k(20), owner: k(40), collaterals: [Position::default(); 8], borrows: [Position::default(); 8], bump: 0 }
}

#[test]
fn instruction_and_state_roundtrip() {
    for i in [
        LendInstruction::InitMarket { oracle_program_id: k(3) },
        LendInstruction::Deposit { amount: 5 },
        LendInstruction::Withdraw { amount: 6, max_slippage_bps: 7 },
        LendInstruction::Borrow { amount: 8 },
        LendInstruction::Repay { amount: 9 },
        LendInstruction::Liquidate { repay_amount: 10 },
        LendInstruction::Pause {},
        LendInstruction::Unpause {},
    ] {
        assert_eq!(LendInstruction::try_from_slice(&i.to_bytes()), Some(i));
    }
    assert_eq!(ReserveParams::try_from_slice(&params().to_bytes()), Some(params()));
    assert_eq!(Market::try_from_slice(&market(true).to_bytes()), Some(market(true)));
    let r = reserve(5, 7);
    assert_eq!(r.to_bytes().len(), Reserve::LEN);
    assert_eq!(Reserve::try_from_slice(&r.to_bytes()), Some(r));
    let o = empty_obligation();
    assert_eq!(o.to_bytes().len(), Obligations::LEN);
    assert_eq!(Obligations::try_from_slice(&o.to_bytes()).unwrap().to_bytes(), o.to_bytes());
}

#[test]
fn lend_error_codes() {
    assert_eq!(ProgramError::from(LendError::InvalidInstruction), ProgramError::Custom(0));
    assert_eq!(ProgramError::from(LendError::Unauthorized), ProgramError::Custom(1));
    assert_eq!(ProgramError::from(LendError::Paused), ProgramError::Custom(5));
    assert_eq!(ProgramError::from(LendError::MismatchedAccounts), ProgramError::Custom(6));
    assert_eq!(ProgramError::from(LendError::NotImplemented), ProgramError::Custom(8));
    assert_eq!(ProgramError::from(LendError::NotRentExempt), ProgramError::Custom(9));
}

#[test]
fn upsert_fills_updates_and_clears_slots() {
    let mut slots = [Position::default(); 8];
    Obligations::upsert_position(&mut slots, k(7), 100, false);
    assert_eq!(slots[0], Position { reserve: k(7), scaled_amount: 100, used_as_collateral: false });
    Obligations::upsert_position(&mut slots, k(8), 5, true);
    assert_eq!(slots[1], Position { reserve: k(8), scaled_amount: 5, used_as_collateral: true });
    Obligations::upsert_position(&mut slots, k(7), -40, true);
    assert_eq!(slots[0], Position { reserve: k(7), scaled_amount: 60, used_as_collateral: false });
    Obligations::upsert_position(&mut slots, k(7), -60, true);
    assert_eq!(slots[0], Position::default());
    assert_eq!(slots[1].scaled_amount, 5);
    // a freed slot is reused by the next new reserve
    Obligations::upsert_position(&mut slots, k(9), 1, false);
    assert_eq!(slots[0].reserve, k(9));
}

#[test]
fn upsert_with_every_slot_taken_changes_nothing() {
    let mut slots = [Position::default(); 8];
    for i in 0..8u8 {
        Obligations::upsert_position(&mut slots, k(10 + i), 1, true);
    }
    let before = slots;
    Obligations::upsert_position(&mut slots, k(99), 1, true);
    assert_eq!(slots, before);
}

fn market_accounts(program: [u8; 32]) -> Vec<AccountState> {
    vec![acct(k(20), program, 2_000_000, vec![0; Market::LEN], false), acct(k(1), k(0), 1, vec![], true), acct(k(0), k(0), 1, vec![], false)]
}

#[test]
fn init_market_records_the_admin() {
    let program = k(200);
    let accounts = market_accounts(program);
    let effects = init_market::process(&program, &accounts, k(9), 1_350_240).unwrap();
    assert_eq!(effects, vec![Effect::WriteData { account: 0, bytes: market(false).to_bytes() }]);
    assert_eq!(init_market::process(&program, &accounts[..2], k(9), 1), Err(ProgramError::NotEnoughAccountKeys));
    let mut unsigned = market_accounts(program);
    unsigned[1].is_signer = false;
    assert_eq!(init_market::process(&program, &unsigned, k(9), 1), Err(ProgramError::Custom(1)));
    let mut foreign = market_accounts(program);
    foreign[0].owner = k(1);
    assert_eq!(init_market::process(&program, &foreign, k(9), 1), Err(ProgramError::Custom(6)));
    let mut small = market_accounts(program);
    small[0].data = vec![0; 10];
    assert_eq!(init_market::process(&program, &small, k(9), 1), Err(ProgramError::BorshIoError));
    assert_eq!(init_market::process(&program, &accounts, k(9), 3_000_000), Err(ProgramError::Custom(9)));
}

fn reserve_accounts(program: [u8; 32]) -> Vec<AccountState> {
    vec![
        acct(k(20), program, 1, market(false).to_bytes(), false),
        acct(k(21), program, 1, vec![0; Reserve::LEN], false),
        acct(k(31), k(0), 1, vec![], false),
        acct(k(30), k(0), 1, vec![], false),
        acct(SPL_TOKEN_PROGRAM_ID, k(0), 1, vec![], false),
        acct(k(1), k(0), 1, vec![], true),
    ]
}

#[test]
fn add_reserve_starts_at_one_ray() {
    let program = k(200);
    let effects = add_reserve::process(&program, &reserve_accounts(program), params()).unwrap();
    let mut expected = reserve(0, 0);
    expected.last_update = 0;
    assert_eq!(effects, vec![Effect::WriteData { account: 1, bytes: expected.to_bytes() }]);
    let mut not_admin = reserve_accounts(program);
    not_admin[5].key = k(2);
    assert_eq!(add_reserve::process(&program, &not_admin, params()), Err(ProgramError::Custom(1)));
    let mut small = reserve_accounts(program);
    small[1].data = vec![];
    assert_eq!(add_reserve::process(&program, &small, params()), Err(ProgramError::BorshIoError));
    let mut garbled = reserve_accounts(program);
    garbled[0].data = vec![1];
    assert_eq!(add_reserve::process(&program, &garbled, params()), Err(ProgramError::InvalidAccountData));
}

fn position_accounts(program: [u8; 32], m: Market, r: Reserve, o: Obligations) -> Vec<AccountState> {
    vec![
        acct(k(20), program, 1, m.to_bytes(), false),
        acct(k(21), program, 1, r.to_bytes(), false),
        acct(k(22), program, 1, o.to_bytes(), false),
        acct(k(31), SPL_TOKEN_PROGRAM_ID, 1, vec![], false),
        acct(k(40), k(0), 1, vec![], true),
        acct(k(41), SPL_TOKEN_PROGRAM_ID, 1, vec![], false),
        acct(SPL_TOKEN_PROGRAM_ID, k(0), 1, vec![], false),
        acct(k(50), k(0), 1, vec![], false),
    ]
}

#[test]
fn accrual_only_moves_the_clock_of_an_empty_reserve() {
    let mut empty = reserve(0, 0);
    assert_eq!(deposit::accure_reserve(&mut empty, 150), Ok(()));
    assert_eq!(empty.last_update, 150);
    let mut earlier = reserve(0, 0);
    assert_eq!(deposit::accure_reserve(&mut earlier, 50), Ok(()));
    assert_eq!(earlier.last_update, 100);
    let mut busy = reserve(1_000, 10);
    assert_eq!(deposit::accure_reserve(&mut busy, 150), Ok(()));
    assert_eq!(busy, reserve(1_000, 10));
}

#[test]
fn deposit_moves_tokens_into_the_vault() {
    let program = k(200);
    let accounts = position_accounts(program, market(false), reserve(0, 0), empty_obligation());
    let effects = deposit::process(&program, &accounts, 500, 1_000).unwrap();
    let transfer = spl_token::instruction::transfer(&spl_token::id(), &sol(k(40)), &sol(k(31)), &sol(k(40)), &[], 500).unwrap();
    assert_eq!(effects, vec![Effect::Invoke { instruction: from_sol(transfer), accounts: vec![5, 3, 4, 6], signer_seeds: vec![] }]);
    let paused = position_accounts(program, market(true), reserve(0, 0), empty_obligation());
    assert_eq!(deposit::process(&program, &paused, 500, 1_000), Err(ProgramError::Custom(5)));
    let mut other_market = reserve(0, 0);
    other_market.market = k(99);
    let mismatched = position_accounts(program, market(false), other_market, empty_obligation());
    assert_eq!(deposit::process(&program, &mismatched, 500, 1_000), Err(ProgramError::Custom(6)));
    let mut unsigned = accounts.clone();
    unsigned[4].is_signer = false;
    assert_eq!(deposit::process(&program, &unsigned, 500, 1_000), Err(ProgramError::Custom(1)));
    assert_eq!(deposit::process(&program, &accounts[..7], 500, 1_000), Err(ProgramError::NotEnoughAccountKeys));
}

#[test]
fn repayment_reduces_the_borrow_position() {
    let program = k(200);
    let mut o = empty_obligation();
    Obligations::upsert_position(&mut o.borrows, k(21), 1_000, false);
    let mut r = reserve(5_000, 3_000);
    r.borrow_index = 2 * RAY;
    let accounts = position_accounts(program, market(false), r, o);
    let effects = borrow::process(&program, &accounts[..7], 600).unwrap();
    let transfer = spl_token::instruction::transfer(&spl_token::id(), &sol(k(41)), &sol(k(31)), &sol(k(40)), &[], 600).unwrap();
    let mut r_after = r;
    r_after.total_scaled_borrows = 2_700;
    let mut o_after = o;
    Obligations::upsert_position(&mut o_after.borrows, k(21), -300, false);
    assert_eq!(o_after.borrows[0].scaled_amount, 700);
    assert_eq!(
        effects,
        vec![
            Effect::InvokeUnchecked { instruction: from_sol(transfer), accounts: vec![6, 4, 5, 3] },
            Effect::WriteData { account: 1, bytes: r_after.to_bytes() },
            Effect::WriteData { account: 2, bytes: o_after.to_bytes() },
        ]
    );
    let mut no_token = accounts.clone();
    no_token[6].key = k(6);
    assert_eq!(borrow::process(&program, &no_token, 600), Err(ProgramError::IncorrectProgramId));
}

#[test]
fn withdrawal_reduces_the_collateral_position() {
    let program = k(200);
    let mut o = empty_obligation();
    Obligations::upsert_position(&mut o.collaterals, k(21), 1_000, true);
    let mut r = reserve(5_000, 0);
    r.liquidity_index = 4 * RAY;
    let accounts = position_accounts(program, market(false), r, o);
    let effects = withdraw::process(&program, &accounts, 800, 50).unwrap();
    let transfer = spl_token::instruction::transfer(&spl_token::id(), &sol(k(31)), &sol(k(41)), &sol(program), &[], 800).unwrap();
    let mut r_after = r;
    r_after.total_scaled_deposits = 4_800;
    let mut o_after = o;
    Obligations::upsert_position(&mut o_after.collaterals, k(21), -200, true);
    assert_eq!(
        effects,
        vec![
            Effect::Invoke { instruction: from_sol(transfer), accounts: vec![3, 5, 6], signer_seeds: vec![] },
            Effect::WriteData { account: 1, bytes: r_after.to_bytes() },
            Effect::WriteData { account: 2, bytes: o_after.to_bytes() },
        ]
    );
    let paused = position_accounts(program, market(true), r, o);
    assert_eq!(withdraw::process(&program, &paused, 800, 50), Err(ProgramError::Custom(5)));
    let mut garbled = accounts.clone();
    garbled[2].data = vec![0; 3];
    assert_eq!(withdraw::process(&program, &garbled, 800, 50), Err(ProgramError::InvalidAccountData));
}

#[test]
fn repaying_everything_empties_the_slot() {
    let program = k(200);
    let mut o = empty_obligation();
    Obligations::upsert_position(&mut o.borrows, k(21), 1_000, false);
    Obligations::upsert_position(&mut o.borrows, k(23), 50, false);
    let mut r = reserve(5_000, 3_000);
    r.borrow_index = 2 * RAY;
    let accounts = position_accounts(program, market(false), r, o);
    assert!(borrow::repay_is_defined(&program, &accounts, 2_000));
    let effects = borrow::process(&program, &accounts, 2_000).unwrap();
    let written = match &effects[2] {
        Effect::WriteData { account: 2, bytes } => Obligations::try_from_slice(bytes).unwrap(),
        other => panic!("unexpected effect {:?}", other),
    };
    assert_eq!(written.borrows[0], Position::default());
    assert_eq!(written.borrows[1], Position { reserve: k(23), scaled_amount: 50, used_as_collateral: false });
    assert_eq!(written.collaterals, o.collaterals);
}

#[test]
fn arithmetic_guards() {
    let program = k(200);
    let mut r = reserve(5_000, 3_000);
    r.borrow_index = 0;
    let accounts = position_accounts(program, market(false), r, empty_obligation());
    assert!(!borrow::repay_is_defined(&program, &accounts, 1));
    let mut busy = reserve(u128::MAX, 0);
    busy.liquidity_index = RAY;
    assert!(!deposit::accrue_is_defined(&busy, 1_000));
    assert!(deposit::accrue_is_defined(&reserve(10, 5), 1_000));
    assert!(withdraw::withdraw_is_defined(&program, &position_accounts(program, market(false), reserve(10, 0), empty_obligation()), 5));
}

#[test]
fn refusals_come_before_the_position_arithmetic() {
    let program = k(200);
    let mut r = reserve(5_000, 3_000);
    r.liquidity_index = 0;
    r.borrow_index = 0;
    let mut unsigned = position_accounts(program, market(false), r, empty_obligation());
    unsigned[4].is_signer = false;
    assert!(withdraw::withdraw_is_defined(&program, &unsigned, 5));
    assert_eq!(withdraw::process(&program, &unsigned, 5, 50), Err(ProgramError::Custom(1)));
    assert!(borrow::repay_is_defined(&program, &unsigned, 5));
    assert_eq!(borrow::process(&program, &unsigned, 5), Err(ProgramError::Custom(1)));
    let paused = position_accounts(program, market(true), r, empty_obligation());
    assert!(withdraw::withdraw_is_defined(&program, &paused, 5));
    assert_eq!(withdraw::process(&program, &paused, 5, 50), Err(ProgramError::Custom(5)));
    let reaching = position_accounts(program, market(false), r, empty_obligation());
    assert!(!withdraw::withdraw_is_defined(&program, &reaching, 5));
    assert!(!borrow::repay_is_defined(&program, &reaching, 5));
    let mut foreign = reaching.clone();
    foreign[2].owner = k(9);
    assert!(withdraw::withdraw_is_defined(&program, &foreign, 5));
    assert_eq!(withdraw::process(&program, &foreign, 5, 50), Err(ProgramError::Custom(6)));
}
