use solana_programs::account::{AccountMeta, AccountState, Effect, Instruction};
use solana_programs::delete_account::{process_account, Instruction as CloseInstruction};
use solana_programs::error::ProgramError;
use solana_programs::key::SYSTEM_PROGRAM_ID;
use solana_programs::transfer_sol::{pay_via_account, pay_via_cpi, process_instruction, Input};

fn k(n: u8) -> [u8; 32] {
    [n; 32]
}

fn acct(key: [u8; 32], owner: [u8; 32], lamports: u64, data: Vec<u8>, is_signer: bool) -> AccountState {
    AccountState { key, owner, lamports, data, is_signer, is_writable: true }
}

fn lamports_after(effects: &[Effect], n: usize, start: &[u64]) -> Vec<u64> {
    let mut balances = start[..n].to_vec();
    for e in effects {
        if let Effect::SetLamports { account, lamports } = e {
            balances[*account] = *lamports;
        }
    }
    balances
}

#[test]
fn input_roundtrip() {
    for i in [Input::CpiAccountTransfer(5), Input::ProgramAccountTransfer(u64::MAX)] {
        assert_eq!(Input::try_from_slice(&i.to_bytes()), Some(i));
    }
    assert_eq!(Input::CpiAccountTransfer(1).to_bytes(), vec![0, 1, 0, 0, 0, 0, 0, 0, 0]);
    assert_eq!(Input::try_from_slice(&[2, 0, 0, 0, 0, 0, 0, 0, 0]), None);
}

#[test]
fn pay_via_cpi_asks_the_system_program() {
    let accounts = vec![acct(k(1), k(0), 100, vec![], true), acct(k(2), k(0), 0, vec![], false), acct(SYSTEM_PROGRAM_ID, k(0), 1, vec![], false)];
    let effects = pay_via_cpi(&accounts, 258).unwrap();
    let expected = Instruction {
        program_id: SYSTEM_PROGRAM_ID,
        accounts: vec![
            AccountMeta { pubkey: k(1), is_signer: true, is_writable: true },
            AccountMeta { pubkey: k(2), is_signer: false, is_writable: true },
        ],
        data: vec![2, 0, 0, 0, 2, 1, 0, 0, 0, 0, 0, 0],
    };
    assert_eq!(effects, vec![Effect::InvokeUnchecked { instruction: expected, accounts: vec![0, 1, 2] }]);
    assert_eq!(pay_via_cpi(&accounts[..2], 1), Err(ProgramError::NotEnoughAccountKeys));
}

#[test]
fn pay_via_account_moves_lamports() {
    let accounts = vec![acct(k(1), k(9), 100, vec![], true), acct(k(2), k(0), 7, vec![], false)];
    let effects = pay_via_account(&accounts, 30).unwrap();
    assert_eq!(effects, vec![Effect::SetLamports { account: 0, lamports: 70 }, Effect::SetLamports { account: 1, lamports: 37 }]);
    let after = lamports_after(&effects, 2, &[100, 7]);
    assert_eq!(after[0] + after[1], 107);
    assert_eq!(pay_via_account(&accounts[..1], 30), Err(ProgramError::NotEnoughAccountKeys));
}

#[test]
fn paying_oneself_changes_nothing() {
    let accounts = vec![acct(k(1), k(9), 100, vec![], true), acct(k(1), k(9), 100, vec![], true)];
    let effects = pay_via_account(&accounts, 40).unwrap();
    assert_eq!(effects, vec![Effect::SetLamports { account: 0, lamports: 60 }, Effect::SetLamports { account: 1, lamports: 100 }]);
}

#[test]
fn transfer_program_dispatch() {
    let accounts = vec![acct(k(1), k(9), 100, vec![], true), acct(k(2), k(0), 7, vec![], false), acct(SYSTEM_PROGRAM_ID, k(0), 1, vec![], false)];
    let direct = Input::ProgramAccountTransfer(5).to_bytes();
    assert_eq!(process_instruction(&k(9), &accounts, &direct).unwrap(), pay_via_account(&accounts, 5).unwrap());
    let cpi = Input::CpiAccountTransfer(5).to_bytes();
    assert_eq!(process_instruction(&k(9), &accounts, &cpi).unwrap(), pay_via_cpi(&accounts, 5).unwrap());
    // a failed payment is dropped and the program still succeeds
    assert_eq!(process_instruction(&k(9), &accounts[..1], &cpi), Ok(vec![]));
    assert_eq!(process_instruction(&k(9), &accounts, &[7]), Err(ProgramError::BorshIoError));
}

fn close_accounts(program: [u8; 32]) -> Vec<AccountState> {
    vec![
        acct(k(1), k(0), 500, vec![], true),
        acct(k(2), program, 1_234, vec![5, 6, 7], false),
        acct(k(1), k(0), 500, vec![], true),
    ]
}

#[test]
fn closing_moves_all_lamports_and_zeroes_data() {
    let program = k(50);
    let accounts = close_accounts(program);
    let data = CloseInstruction::CloseAccount.to_bytes();
    assert_eq!(data, vec![0]);
    let effects = process_account(&program, &accounts, &data).unwrap();
    assert_eq!(
        effects,
        vec![
            Effect::SetLamports { account: 0, lamports: 1_734 },
            Effect::SetLamports { account: 1, lamports: 0 },
            Effect::ZeroData { account: 1 },
        ]
    );
    let after = lamports_after(&effects, 2, &[500, 1_234]);
    assert_eq!(after[0] + after[1], 500 + 1_234);
}

#[test]
fn closing_errors() {
    let program = k(50);
    let data = [0u8];
    assert_eq!(process_account(&program, &close_accounts(program), &[1]), Err(ProgramError::BorshIoError));
    assert_eq!(process_account(&program, &close_accounts(program)[..2], &data), Err(ProgramError::NotEnoughAccountKeys));
    let mut foreign = close_accounts(program);
    foreign[1].owner = k(51);
    assert_eq!(process_account(&program, &foreign, &data), Err(ProgramError::IncorrectProgramId));
    let mut unsigned = close_accounts(program);
    unsigned[2].is_signer = false;
    assert_eq!(process_account(&program, &unsigned, &data), Err(ProgramError::MissingRequiredSignature));
    let mut other = close_accounts(program);
    other[2].key = k(3);
    assert_eq!(process_account(&program, &other, &data), Err(ProgramError::IllegalOwner));
}
