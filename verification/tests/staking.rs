use solana_programs::account::{AccountState, Effect};
use solana_programs::error::ProgramError;
use solana_programs::staking::error::StakeError;
use solana_programs::staking::instruction::StakingInstruction;
use solana_programs::staking::processor::{initialize_pool, load_account, process_stake, save_account, Processor};
use solana_programs::staking::state::{Pool, UserStake};
use solana_programs::staking::utils::{checked_add, checked_mul, checked_mul_u64_i64, checked_sub};

const OVERFLOW: ProgramError = ProgramError::Custom(3);

fn k(n: u8) -> [u8; 32] {
    [n; 32]
}

fn acct(key: [u8; 32], owner: [u8; 32], data: Vec<u8>, is_signer: bool) -> AccountState {
    AccountState { key, owner, lamports: 1_000, data, is_signer, is_writable: true }
}

fn pool_accounts(program: [u8; 32]) -> Vec<AccountState> {
    vec![
        acct(k(10), program, vec![0; Pool::LEN], false),
        acct(k(11), k(0), vec![], true),
        acct(k(12), k(0), vec![], false),
        acct(k(13), k(0), vec![], false),
        acct(k(14), k(0), vec![], false),
        acct(k(15), k(0), vec![], false),
    ]
}

#[test]
fn checked_arithmetic_values() {
    assert_eq!(checked_add(2, 3), Ok(5));
    assert_eq!(checked_add(u64::MAX, 1), Err(OVERFLOW));
    assert_eq!(checked_sub(5, 3), Ok(2));
    assert_eq!(checked_sub(3, 5), Err(OVERFLOW));
    assert_eq!(checked_mul(6, 7), Ok(42));
    assert_eq!(checked_mul(u64::MAX, 2), Err(OVERFLOW));
    assert_eq!(checked_mul_u64_i64(6, 7), Ok(42));
    assert_eq!(checked_mul_u64_i64(6, -1), Err(OVERFLOW));
    assert_eq!(checked_mul_u64_i64(u64::MAX, 2), Err(OVERFLOW));
    assert_eq!(checked_mul_u64_i64(9, 0), Ok(0));
}

#[test]
fn checked_sub_undoes_checked_add() {
    for (a, b) in [(0u64, 0u64), (5, 7), (u64::MAX - 1, 1)] {
        let sum = checked_add(a, b).unwrap();
        assert_eq!(checked_sub(sum, b), Ok(a));
        assert_eq!(checked_add(b, a), Ok(sum));
    }
}

#[test]
fn stake_error_codes() {
    assert_eq!(ProgramError::from(StakeError::InValidInstruction), ProgramError::Custom(0));
    assert_eq!(ProgramError::from(StakeError::Unauthorized), ProgramError::Custom(1));
    assert_eq!(ProgramError::from(StakeError::InsufficientBalance), ProgramError::Custom(2));
    assert_eq!(ProgramError::from(StakeError::MathOverFlow), ProgramError::Custom(3));
}

#[test]
fn staking_instruction_roundtrip() {
    for i in [
        StakingInstruction::InitializePool { amount: 7 },
        StakingInstruction::Stake { amount: u64::MAX },
        StakingInstruction::Unstake { amount: 1 },
        StakingInstruction::ClaimReward,
    ] {
        assert_eq!(StakingInstruction::try_from_slice(&i.to_bytes()), Some(i));
    }
    assert_eq!(StakingInstruction::Stake { amount: 258 }.to_bytes(), vec![1, 2, 1, 0, 0, 0, 0, 0, 0]);
    assert_eq!(StakingInstruction::try_from_slice(&[3, 0]), None);
    assert_eq!(StakingInstruction::try_from_slice(&[4]), None);
}

#[test]
fn pool_and_stake_roundtrip() {
    let pool = Pool {
        authority: k(1),
        staking_mint: k(2),
        reward_mint: k(3),
        vault: k(4),
        vault_staked_tokens: k(5),
        vault_reward_token: k(6),
        reward_rate: 77,
        total_staked: 1_000,
        last_update_time: -5,
    };
    let bytes = pool.to_bytes();
    assert_eq!(bytes.len(), Pool::LEN);
    assert_eq!(Pool::try_from_slice(&bytes), Some(pool));
    let stake = UserStake { owner: k(9), staked_amount: 10, reward_debt: 2, last_stake_time: 99 };
    assert_eq!(stake.to_bytes().len(), UserStake::LEN);
    assert_eq!(UserStake::try_from_slice(&stake.to_bytes()), Some(stake));
}

#[test]
fn initialize_pool_writes_the_pool() {
    let program = k(200);
    let accounts = pool_accounts(program);
    let effects = initialize_pool(&program, &accounts, 25, 1_700_000_000).unwrap();
    let expected = Pool {
        authority: k(11),
        staking_mint: k(12),
        reward_mint: k(13),
        vault: k(14),
        vault_staked_tokens: k(12),
        vault_reward_token: k(15),
        reward_rate: 25,
        total_staked: 0,
        last_update_time: 1_700_000_000,
    };
    assert_eq!(effects, vec![Effect::WriteData { account: 0, bytes: expected.to_bytes() }]);
    let mut stored = accounts[0].clone();
    stored.data = expected.to_bytes();
    assert_eq!(load_account(&stored), Ok(expected));
}

#[test]
fn initialize_pool_errors() {
    let program = k(200);
    assert_eq!(initialize_pool(&program, &pool_accounts(program)[..5], 1, 0), Err(ProgramError::NotEnoughAccountKeys));
    let mut wrong_owner = pool_accounts(program);
    wrong_owner[0].owner = k(201);
    assert_eq!(initialize_pool(&program, &wrong_owner, 1, 0), Err(ProgramError::IncorrectProgramId));
    let mut unsigned = pool_accounts(program);
    unsigned[1].is_signer = false;
    assert_eq!(initialize_pool(&program, &unsigned, 1, 0), Err(ProgramError::MissingRequiredSignature));
    let mut small = pool_accounts(program);
    small[0].data = vec![0; 10];
    assert_eq!(initialize_pool(&program, &small, 1, 0), Err(ProgramError::InvalidAccountData));
}

#[test]
fn load_and_save_account() {
    let program = k(200);
    let short = acct(k(1), program, vec![0; 3], false);
    assert_eq!(load_account::<Pool>(&short), Err(ProgramError::InvalidAccountData));
    assert_eq!(load_account::<UserStake>(&short), Err(ProgramError::InvalidAccountData));
    let pool = Pool::try_from_slice(&vec![0; Pool::LEN]).unwrap();
    assert_eq!(save_account(4, &short, &pool), Err(ProgramError::InvalidAccountData));
    let big = acct(k(1), program, vec![9; 300], false);
    assert_eq!(save_account(4, &big, &pool), Ok(Effect::WriteData { account: 4, bytes: pool.to_bytes() }));
}

#[test]
fn stake_checks() {
    let program = k(200);
    let accounts = vec![
        acct(k(1), k(0), vec![], true),
        acct(k(2), program, vec![], false),
        acct(k(3), program, vec![], false),
        acct(k(4), k(0), vec![], false),
        acct(k(5), k(0), vec![], false),
        acct(k(6), k(0), vec![], false),
    ];
    assert_eq!(process_stake(&program, &accounts, 10), Ok(()));
    assert_eq!(process_stake(&program, &accounts, 0), Err(ProgramError::InvalidInstructionData));
    assert_eq!(process_stake(&program, &accounts[..5], 10), Err(ProgramError::NotEnoughAccountKeys));
    let mut unsigned = accounts.clone();
    unsigned[0].is_signer = false;
    assert_eq!(process_stake(&program, &unsigned, 10), Err(ProgramError::MissingRequiredSignature));
    let mut foreign = accounts.clone();
    foreign[2].owner = k(9);
    assert_eq!(process_stake(&program, &foreign, 10), Err(ProgramError::MissingRequiredSignature));
}

#[test]
fn processor_dispatch() {
    let program = k(200);
    let accounts = pool_accounts(program);
    assert_eq!(Processor::process(&program, &accounts, &[9], 0), Err(ProgramError::Custom(0)));
    let init = StakingInstruction::InitializePool { amount: 25 }.to_bytes();
    assert_eq!(Processor::process(&program, &accounts, &init, 3).unwrap(), initialize_pool(&program, &accounts, 25, 3).unwrap());
    let too_big = StakingInstruction::InitializePool { amount: 1 << 40 }.to_bytes();
    assert_eq!(Processor::process(&program, &accounts, &too_big, 3), Err(ProgramError::InvalidInstructionData));
    let unstake = StakingInstruction::Unstake { amount: 1 }.to_bytes();
    assert_eq!(Processor::process(&program, &accounts, &unstake, 3), Err(ProgramError::InvalidInstructionData));
    let claim = StakingInstruction::ClaimReward.to_bytes();
    assert_eq!(Processor::process(&program, &accounts, &claim, 3), Err(ProgramError::InvalidInstructionData));
}

#[test]
fn loading_reads_back_what_saving_wrote() {
    let program = k(200);
    let stake = UserStake { owner: k(7), staked_amount: 500, reward_debt: 12, last_stake_time: -3 };
    let mut account = acct(k(1), program, vec![0; UserStake::LEN], false);
    let written = match save_account(1, &account, &stake) {
        Ok(Effect::WriteData { account: 1, bytes }) => bytes,
        other => panic!("unexpected outcome {:?}", other),
    };
    assert_eq!(written.len(), UserStake::LEN);
    account.data = written;
    assert_eq!(load_account::<UserStake>(&account), Ok(stake));
    // the same bytes are no pool, and a byte more is no stake
    assert_eq!(load_account::<Pool>(&account), Err(ProgramError::InvalidAccountData));
    account.data.push(0);
    assert_eq!(load_account::<UserStake>(&account), Err(ProgramError::InvalidAccountData));
}
