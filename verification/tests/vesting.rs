use solana_program::pubkey::Pubkey as SolPubkey;
use solana_programs::account::{AccountMeta, AccountState, Effect, Instruction};
use solana_programs::error::ProgramError;
use solana_programs::key::{ASSOCIATED_TOKEN_PROGRAM_ID, CLOCK_SYSVAR_ID, RENT_SYSVAR_ID, SPL_TOKEN_PROGRAM_ID, SYSTEM_PROGRAM_ID};
use solana_programs::vesting::error::VestingError;
use solana_programs::vesting::instruction::VestingInstruction;
use solana_programs::vesting::processor::Processor;
use solana_programs::vesting::state::VestingState;
use solana_programs::vesting::util::rent_exempt;

fn k(n: u8) -> [u8; 32] {
    [n; 32]
}

fn acct(key: [u8; 32], owner: [u8; 32], lamports: u64, data: Vec<u8>, is_signer: bool) -> AccountState {
    AccountState { key, owner, lamports, data, is_signer, is_writable: true }
}

fn from_sol(ix: solana_program::instruction::Instruction) -> Instruction {
    Instruction {
        program_id: ix.program_id.to_bytes(),
        accounts: ix.accounts.iter().map(|m| AccountMeta { pubkey: m.pubkey.to_bytes(), is_signer: m.is_signer, is_writable: m.is_writable }).collect(),
        data: ix.data,
    }
}

fn sol(k: [u8; 32]) -> SolPubkey {
    SolPubkey::new_from_array(k)
}

fn schedule(claimed: u64) -> VestingState {
    VestingState {
        beneficiary: k(2),
        admin: k(1),
        mint: k(3),
        escrow_ata: k(5),
        start_time: 0,
        cliff_time: 10,
        end_time: 100,
        total_amount: 1_000,
        claimed_amount: claimed,
        revocable: true,
        vesting_bump: 254,
    }
}

fn vesting_address(program: [u8; 32]) -> ([u8; 32], u8) {
    let (key, bump) = SolPubkey::find_program_address(&[b"vesting", &k(2), &k(3)], &sol(program));
    (key.to_bytes(), bump)
}

fn clock(now: i64) -> AccountState {
    let mut data = vec![0u8; 40];
    data[32..40].copy_from_slice(&now.to_le_bytes());
    acct(CLOCK_SYSVAR_ID, k(0), 1, data, false)
}

#[test]
fn vested_amount_follows_the_schedule() {
    let s = schedule(0);
    assert_eq!(s.vested_amount(9), 0);
    assert_eq!(s.vested_amount(10), 100);
    assert_eq!(s.vested_amount(50), 500);
    assert_eq!(s.vested_amount(99), 990);
    assert_eq!(s.vested_amount(100), 1_000);
    assert_eq!(s.vested_amount(1_000_000), 1_000);
    let mut last = 0;
    for t in (-20..130).step_by(7) {
        let v = s.vested_amount(t);
        assert!(last <= v && v <= s.total_amount);
        last = v;
    }
}

#[test]
fn claimable_and_fully_claimed() {
    assert_eq!(schedule(300).claimable(50), 200);
    assert_eq!(schedule(600).claimable(50), 0);
    assert!(!schedule(999).fully_claimed());
    assert!(schedule(1_000).fully_claimed());
    // after claiming everything claimable nothing is left at the same time
    let s = schedule(120);
    let claimed = s.claimed_amount + s.claimable(64);
    assert_eq!(schedule(claimed).claimable(64), 0);
}

#[test]
fn schedule_and_instruction_roundtrip() {
    let s = schedule(42);
    let bytes = s.to_bytes();
    assert_eq!(bytes.len(), 170);
    assert_eq!(VestingState::LEN, 4);
    assert_eq!(VestingState::try_from_slice(&bytes), Some(s));
    let i = VestingInstruction::Initialize { total_amount: 5, start_time: -1, cliff_time: 2, end_time: 3, revocable: false };
    assert_eq!(i.to_bytes().len(), 34);
    assert_eq!(VestingInstruction::try_from_slice(&i.to_bytes()), Some(i));
    assert_eq!(VestingInstruction::try_from_slice(&[1]), Some(VestingInstruction::Claim {}));
    assert_eq!(VestingInstruction::try_from_slice(&[2]), Some(VestingInstruction::CloseAndRevoke {}));
    assert_eq!(VestingInstruction::try_from_slice(&[3]), None);
}

#[test]
fn vesting_error_codes() {
    assert_eq!(ProgramError::from(VestingError::InvalidInstruction), ProgramError::Custom(0));
    assert_eq!(ProgramError::from(VestingError::NothingClaimable), ProgramError::Custom(4));
    assert_eq!(ProgramError::from(VestingError::InvalidSchedule), ProgramError::Custom(9));
    assert_eq!(rent_exempt(10, 10), Ok(()));
    assert_eq!(rent_exempt(9, 10), Err(ProgramError::Custom(7)));
}

fn init_accounts(program: [u8; 32]) -> Vec<AccountState> {
    let (address, _) = vesting_address(program);
    vec![
        acct(k(1), k(0), 10_000_000, vec![], true),
        acct(address, k(0), 0, vec![], false),
        acct(k(2), k(0), 0, vec![], false),
        acct(k(3), SPL_TOKEN_PROGRAM_ID, 1, vec![], false),
        acct(k(4), SPL_TOKEN_PROGRAM_ID, 1, vec![], false),
        acct(k(5), k(0), 0, vec![], false),
        acct(SPL_TOKEN_PROGRAM_ID, k(0), 1, vec![], false),
        acct(ASSOCIATED_TOKEN_PROGRAM_ID, k(0), 1, vec![], false),
        acct(SYSTEM_PROGRAM_ID, k(0), 1, vec![], false),
        acct(RENT_SYSVAR_ID, k(0), 1, vec![], false),
    ]
}

#[test]
fn initialize_cannot_store_the_schedule() {
    let program = k(100);
    let accounts = init_accounts(program);
    // every check passes, but the 170-byte schedule does not fit the
    // 4-byte account the program creates for it
    assert!(schedule(0).to_bytes().len() > VestingState::LEN);
    assert_eq!(Processor::initialize(&program, &accounts, 1_000, 0, 10, 100, true, 2_074_080), Err(ProgramError::BorshIoError));
    let data = VestingInstruction::Initialize { total_amount: 1_000, start_time: 0, cliff_time: 10, end_time: 100, revocable: true }.to_bytes();
    assert_eq!(Processor::process(&program, &accounts, &data, 2_074_080), Err(ProgramError::BorshIoError));
    assert_eq!(Processor::try_process(&program, &accounts, &data, 2_074_080), Some(Err(ProgramError::BorshIoError)));
}

#[test]
fn initialize_errors() {
    let program = k(100);
    let ok = init_accounts(program);
    assert_eq!(Processor::initialize(&program, &ok[..9], 1_000, 0, 10, 100, true, 1), Err(ProgramError::NotEnoughAccountKeys));
    let mut unsigned = ok.clone();
    unsigned[0].is_signer = false;
    assert_eq!(Processor::initialize(&program, &unsigned, 1_000, 0, 10, 100, true, 1), Err(ProgramError::Custom(1)));
    let mut no_system = ok.clone();
    no_system[8].key = k(8);
    assert_eq!(Processor::initialize(&program, &no_system, 1_000, 0, 10, 100, true, 1), Err(ProgramError::IncorrectProgramId));
    assert_eq!(Processor::initialize(&program, &ok, 1_000, 0, 200, 100, true, 1), Err(ProgramError::Custom(9)));
    assert_eq!(Processor::initialize(&program, &ok, 0, 0, 10, 100, true, 1), Err(ProgramError::Custom(9)));
    let mut elsewhere = ok.clone();
    elsewhere[1].key = k(77);
    assert_eq!(Processor::initialize(&program, &elsewhere, 1_000, 0, 10, 100, true, 1), Err(ProgramError::Custom(3)));
    let mut no_token = ok.clone();
    no_token[6].key = k(6);
    assert_eq!(Processor::initialize(&program, &no_token, 1_000, 0, 10, 100, true, 1), Err(ProgramError::BorshIoError));
    assert_eq!(Processor::process(&program, &ok, &[9], 1), Err(ProgramError::InvalidInstructionData));
}

fn claim_accounts(program: [u8; 32], claimed: u64, now: i64) -> Vec<AccountState> {
    let (address, bump) = vesting_address(program);
    let mut state = schedule(claimed);
    state.vesting_bump = bump;
    vec![
        acct(k(2), k(0), 1, vec![], true),
        acct(address, program, 1, state.to_bytes(), false),
        acct(k(5), SPL_TOKEN_PROGRAM_ID, 1, vec![], false),
        acct(k(6), SPL_TOKEN_PROGRAM_ID, 1, vec![], false),
        acct(k(3), SPL_TOKEN_PROGRAM_ID, 1, vec![], false),
        acct(SPL_TOKEN_PROGRAM_ID, k(0), 1, vec![], false),
        clock(now),
    ]
}

#[test]
fn claim_pays_what_has_vested() {
    let program = k(100);
    let accounts = claim_accounts(program, 100, 50);
    let (address, bump) = vesting_address(program);
    let effects = Processor::process_claim(&program, &accounts).unwrap();
    let transfer = spl_token::instruction::transfer(&spl_token::id(), &sol(k(5)), &sol(k(6)), &sol(address), &[], 400).unwrap();
    let mut after = schedule(500);
    after.vesting_bump = bump;
    assert_eq!(
        effects,
        vec![
            Effect::Invoke { instruction: from_sol(transfer), accounts: vec![2, 3, 5], signer_seeds: vec![] },
            Effect::WriteData { account: 1, bytes: after.to_bytes() },
        ]
    );
    assert_eq!(Processor::process(&program, &accounts, &[1], 0).unwrap(), effects);
}

#[test]
fn claim_errors() {
    let program = k(100);
    assert_eq!(Processor::process_claim(&program, &claim_accounts(program, 0, 5)), Err(ProgramError::Custom(4)));
    assert_eq!(Processor::process_claim(&program, &claim_accounts(program, 1_000, 500)), Err(ProgramError::Custom(5)));
    assert_eq!(Processor::process_claim(&program, &claim_accounts(program, 500, 50)), Err(ProgramError::Custom(4)));
    let mut stranger = claim_accounts(program, 0, 50);
    stranger[0].key = k(9);
    assert_eq!(Processor::process_claim(&program, &stranger), Err(ProgramError::Custom(1)));
    let mut unsigned = claim_accounts(program, 0, 50);
    unsigned[0].is_signer = false;
    assert_eq!(Processor::process_claim(&program, &unsigned), Err(ProgramError::Custom(1)));
    let mut garbled = claim_accounts(program, 0, 50);
    garbled[1].data = vec![1, 2, 3];
    assert_eq!(Processor::process_claim(&program, &garbled), Err(ProgramError::InvalidAccountData));
    let mut no_clock = claim_accounts(program, 0, 50);
    no_clock[6].key = k(7);
    assert_eq!(Processor::process_claim(&program, &no_clock), Err(ProgramError::InvalidArgument));
    let mut no_token = claim_accounts(program, 0, 50);
    no_token[5].key = k(8);
    assert_eq!(Processor::process_claim(&program, &no_token), Err(ProgramError::IncorrectProgramId));
    assert_eq!(Processor::process_claim(&program, &claim_accounts(program, 0, 50)[..6]), Err(ProgramError::NotEnoughAccountKeys));
}

#[test]
fn revocation_checks_only() {
    let program = k(100);
    let (address, _) = vesting_address(program);
    let accounts = vec![
        acct(k(1), k(0), 1, vec![], true),
        acct(address, program, 1, schedule(0).to_bytes(), false),
        acct(k(5), k(0), 1, vec![], false),
        acct(k(4), k(0), 1, vec![], false),
        acct(k(3), k(0), 1, vec![], false),
        acct(SPL_TOKEN_PROGRAM_ID, k(0), 1, vec![], false),
        acct(SYSTEM_PROGRAM_ID, k(0), 1, vec![], false),
    ];
    assert_eq!(Processor::revoke_and_claim(&program, &accounts), Ok(vec![]));
    assert_eq!(Processor::process(&program, &accounts, &[2], 0), Ok(vec![]));
    let mut not_admin = accounts.clone();
    not_admin[0].key = k(2);
    assert_eq!(Processor::revoke_and_claim(&program, &not_admin), Err(ProgramError::Custom(1)));
    let mut other_mint = accounts.clone();
    other_mint[4].key = k(9);
    assert_eq!(Processor::revoke_and_claim(&program, &other_mint), Err(ProgramError::Custom(2)));
}

fn overflowing_claim_accounts(program: [u8; 32], claimed: u64) -> Vec<AccountState> {
    let mut accounts = claim_accounts(program, 0, 50);
    let mut state = schedule(claimed);
    state.total_amount = u64::MAX;
    state.claimed_amount = claimed;
    accounts[1].data = state.to_bytes();
    accounts
}

#[test]
fn claim_checks_come_before_the_vested_arithmetic() {
    let program = k(100);
    // signed and matching: the vested amount at 50 would overflow
    let reaching = overflowing_claim_accounts(program, 0);
    assert!(!solana_programs::vesting::processor::claim_is_defined(&program, &reaching));
    assert_eq!(Processor::try_process(&program, &reaching, &[1], 0), None);
    // an unsigned claim on the same schedule is refused as unauthorised
    let mut unsigned = reaching.clone();
    unsigned[0].is_signer = false;
    assert!(solana_programs::vesting::processor::claim_is_defined(&program, &unsigned));
    assert_eq!(Processor::process_claim(&program, &unsigned), Err(ProgramError::Custom(1)));
    assert_eq!(Processor::try_process(&program, &unsigned, &[1], 0), Some(Err(ProgramError::Custom(1))));
    // a fully claimed schedule is refused before any arithmetic
    let done = overflowing_claim_accounts(program, u64::MAX);
    assert_eq!(Processor::process_claim(&program, &done), Err(ProgramError::from(VestingError::AlreadyFullyClaimed)));
    assert_eq!(Processor::try_process(&program, &done, &[1], 0), Some(Err(ProgramError::Custom(5))));
    // other instructions never compute a vested amount
    assert_eq!(Processor::try_process(&program, &reaching, &[9], 0), Some(Err(ProgramError::InvalidInstructionData)));
}

#[test]
fn claims_over_time_pay_exactly_what_has_vested() {
    let program = k(100);
    let mut accounts = claim_accounts(program, 0, 0);
    let mut paid: u64 = 0;
    let mut outcomes = Vec::new();
    for now in [5i64, 50, 50, 80, 80, 200, 200, 300] {
        accounts[6] = clock(now);
        match Processor::process_claim(&program, &accounts) {
            Ok(effects) => {
                assert_eq!(effects.len(), 2);
                let state_bytes = match &effects[1] {
                    Effect::WriteData { account: 1, bytes } => bytes.clone(),
                    other => panic!("unexpected effect {:?}", other),
                };
                let state = VestingState::try_from_slice(&state_bytes).unwrap();
                let amount = state.claimed_amount - VestingState::try_from_slice(&accounts[1].data).unwrap().claimed_amount;
                paid += amount;
                assert_eq!(state.claimed_amount, paid);
                assert_eq!(state.claimed_amount, state.vested_amount(now));
                accounts[1].data = state_bytes;
                outcomes.push(Ok(amount));
            }
            Err(e) => outcomes.push(Err(e)),
        }
    }
    assert_eq!(
        outcomes,
        vec![
            Err(ProgramError::Custom(4)),
            Ok(500),
            Err(ProgramError::Custom(4)),
            Ok(300),
            Err(ProgramError::Custom(4)),
            Ok(200),
            Err(ProgramError::Custom(5)),
            Err(ProgramError::Custom(5)),
        ]
    );
    assert_eq!(paid, 1_000);
}
