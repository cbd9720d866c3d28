use solana_program::pubkey::Pubkey as SolPubkey;
use solana_programs::account::{AccountMeta, AccountState, Effect, Instruction};
use solana_programs::anchor::accounts_on_solana::{create_data_account, create_pda_account, DataAccount, PdaAccount};
use solana_programs::anchor::message_account::{initialize, update, Message};
use solana_programs::check_instruction::{check_account_to_change, process_instruction as check_process};
use solana_programs::cpi_programs::caller_program::process_instruction as caller_process;
use solana_programs::cpi_programs::counter_program::{process_instruction as counter_process, Counter, Instruction as CounterInstruction};
use solana_programs::create_daccount::{process_instruction as create_data_process, ACCOUNT_SPACE};
use solana_programs::determine_rent::process_rent;
use solana_programs::dynamic_data::dynamic_accounts::{message_is_defined, process_message, try_process_message, BaseAccount, MessageAccount};
use solana_programs::dynamic_data::fixed_size::{process_instruction as fixed_size_process, Size};
use solana_programs::error::ProgramError;
use solana_programs::key::SYSTEM_PROGRAM_ID;
use solana_programs::pda::{process_instruction as pda_process, Data};

fn k(n: u8) -> [u8; 32] {
    [n; 32]
}

fn acct(key: [u8; 32], owner: [u8; 32], lamports: u64, data: Vec<u8>, is_signer: bool) -> AccountState {
    AccountState { key, owner, lamports, data, is_signer, is_writable: true }
}

fn create_ix(from: [u8; 32], to: [u8; 32], lamports: u64, space: u64, owner: [u8; 32]) -> Instruction {
    let mut data = vec![0, 0, 0, 0];
    data.extend_from_slice(&lamports.to_le_bytes());
    data.extend_from_slice(&space.to_le_bytes());
    data.extend_from_slice(&owner);
    Instruction {
        program_id: SYSTEM_PROGRAM_ID,
        accounts: vec![
            AccountMeta { pubkey: from, is_signer: true, is_writable: true },
            AccountMeta { pubkey: to, is_signer: true, is_writable: true },
        ],
        data,
    }
}

fn invoke(instruction: Instruction, accounts: Vec<usize>) -> Effect {
    Effect::Invoke { instruction, accounts, signer_seeds: vec![] }
}

fn unchecked(instruction: Instruction, accounts: Vec<usize>) -> Effect {
    Effect::InvokeUnchecked { instruction, accounts }
}

fn pda(seeds: &[&[u8]], program: [u8; 32]) -> ([u8; 32], u8) {
    let (key, bump) = SolPubkey::find_program_address(seeds, &SolPubkey::new_from_array(program));
    (key.to_bytes(), bump)
}

#[test]
fn check_instruction_creates_then_checks() {
    let program = k(40);
    let accounts = vec![
        acct(k(1), k(0), 10_000, vec![], true),
        acct(k(2), k(0), 0, vec![], true),
        acct(k(3), program, 5, vec![], false),
        acct(SYSTEM_PROGRAM_ID, k(0), 1, vec![], false),
    ];
    let effects = check_process(&program, &accounts, &[], 64, 1_336_320).unwrap();
    assert_eq!(effects, vec![invoke(create_ix(k(1), k(2), 1_336_320, 64, program), vec![0, 1, 3])]);
    assert_eq!(check_account_to_change(&program, &accounts[2]), Ok(()));
    assert_eq!(check_process(&SYSTEM_PROGRAM_ID, &accounts, &[], 64, 1), Err(ProgramError::IncorrectProgramId));
    assert_eq!(check_process(&program, &accounts[..3], &[], 64, 1), Err(ProgramError::NotEnoughAccountKeys));
    let mut funded = accounts.clone();
    funded[1].lamports = 1;
    assert_eq!(check_process(&program, &funded, &[], 64, 1), Err(ProgramError::AccountAlreadyInitialized));
    let empty = acct(k(3), program, 0, vec![], false);
    assert_eq!(check_account_to_change(&program, &empty), Err(ProgramError::UninitializedAccount));
    let foreign = acct(k(3), k(41), 5, vec![], false);
    assert_eq!(check_account_to_change(&program, &foreign), Err(ProgramError::IncorrectProgramId));
}

#[test]
fn fixed_and_instruction_sized_accounts() {
    let program = k(40);
    let accounts = vec![acct(k(1), k(0), 10_000, vec![], true), acct(k(2), k(0), 0, vec![], true), acct(SYSTEM_PROGRAM_ID, k(0), 1, vec![], false)];
    assert_eq!(ACCOUNT_SPACE, 100);
    assert_eq!(create_data_process(&program, &accounts, &[], 1_586_880).unwrap(), vec![invoke(create_ix(k(1), k(2), 1_586_880, 100, program), vec![0, 1, 2])]);
    assert_eq!(create_data_process(&program, &accounts[..2], &[], 1), Err(ProgramError::NotEnoughAccountKeys));
    assert_eq!(process_rent(&program, &accounts, &[1, 2, 3], 900_000).unwrap(), vec![unchecked(create_ix(k(1), k(2), 900_000, 3, program), vec![0, 1, 2])]);
    assert_eq!(process_rent(&program, &accounts[..1], &[1], 1), Err(ProgramError::NotEnoughAccountKeys));
    let size = Size { size: 10_240 };
    assert_eq!(Size::try_from_slice(&size.to_bytes()), Some(size));
    assert_eq!(fixed_size_process(&program, &accounts, &size.to_bytes(), 72_161_280).unwrap(), vec![unchecked(create_ix(k(1), k(2), 72_161_280, 10_240, program), vec![0, 1, 2])]);
    assert_eq!(fixed_size_process(&program, &accounts, &[1, 2], 1), Err(ProgramError::BorshIoError));
    assert_eq!(fixed_size_process(&program, &accounts[..2], &size.to_bytes(), 1), Err(ProgramError::NotEnoughAccountKeys));
}

#[test]
fn message_is_stored_at_the_counted_address() {
    let program = k(60);
    let base = k(61);
    let (address, bump) = pda(&[b"pda", &base, &0u32.to_le_bytes()], program);
    let accounts = vec![
        acct(k(1), k(0), 10_000, vec![], true),
        acct(base, program, 1, vec![0, 0, 0, 0], false),
        acct(address, k(0), 0, vec![], false),
        acct(SYSTEM_PROGRAM_ID, k(0), 1, vec![], false),
    ];
    let effects = process_message(&program, &accounts, "héllo".to_string(), 950_000).unwrap();
    let mut expected_text = vec![6, 0, 0, 0];
    expected_text.extend_from_slice("héllo".as_bytes());
    let mut ix = create_ix(k(1), address, 950_000, 10, base);
    ix.accounts[1].pubkey = address;
    assert_eq!(
        effects,
        vec![
            Effect::Invoke {
                instruction: ix,
                accounts: vec![0, 2, 3],
                signer_seeds: vec![vec![b"pda".to_vec(), base.to_vec(), 0u32.to_be_bytes().to_vec(), vec![bump]]],
            },
            Effect::WriteData { account: 2, bytes: expected_text.clone() },
            Effect::WriteData { account: 1, bytes: vec![1, 0, 0, 0] },
        ]
    );
    // the next message is stored at another address
    let mut counted = accounts.clone();
    counted[1].data = vec![1, 0, 0, 0];
    let (next, _) = pda(&[b"pda", &base, &1u32.to_le_bytes()], program);
    assert_ne!(next, address);
    assert_eq!(process_message(&program, &counted, "x".to_string(), 1), Err(ProgramError::InvalidSeeds));
    counted[2].key = next;
    assert!(process_message(&program, &counted, "x".to_string(), 1).is_ok());
    let message = MessageAccount { content: "héllo".to_string() };
    assert_eq!(message.to_bytes(), Some(expected_text));
    assert_eq!(BaseAccount::try_from_slice(&BaseAccount { message_count: 7 }.to_bytes()), Some(BaseAccount { message_count: 7 }));
}

#[test]
fn message_errors() {
    let program = k(60);
    let base = k(61);
    let (address, _) = pda(&[b"pda", &base, &0u32.to_le_bytes()], program);
    let accounts = vec![
        acct(k(1), k(0), 10_000, vec![], true),
        acct(base, program, 1, vec![0, 0, 0, 0], false),
        acct(address, k(0), 0, vec![], false),
        acct(SYSTEM_PROGRAM_ID, k(0), 1, vec![], false),
    ];
    assert_eq!(process_message(&program, &accounts[..3], "a".to_string(), 1), Err(ProgramError::NotEnoughAccountKeys));
    let mut wrong = accounts.clone();
    wrong[2].key = k(9);
    assert_eq!(process_message(&program, &wrong, "a".to_string(), 1), Err(ProgramError::InvalidSeeds));
    let mut garbled = accounts.clone();
    garbled[1].data = vec![1, 2];
    assert_eq!(process_message(&program, &garbled, "a".to_string(), 1), Err(ProgramError::BorshIoError));
    // a base account without data counts from zero but cannot store the count
    let mut fresh = accounts.clone();
    fresh[1].data = vec![];
    assert_eq!(process_message(&program, &fresh, "a".to_string(), 1), Err(ProgramError::BorshIoError));
}

#[test]
fn record_at_the_signers_address() {
    let program = k(70);
    let signer = k(71);
    let (address, bump) = pda(&[b"pda", &signer], program);
    let accounts = vec![acct(signer, k(0), 10_000, vec![], true), acct(address, k(0), 0, vec![], false), acct(SYSTEM_PROGRAM_ID, k(0), 1, vec![], false)];
    let record = Data { roll_no: 12, score: 99 };
    assert_eq!(record.to_bytes(), vec![12, 0, 0, 0, 99, 0, 0, 0]);
    let effects = pda_process(&program, &accounts, &record.to_bytes(), 946_560).unwrap();
    assert_eq!(
        effects,
        vec![
            Effect::Invoke {
                instruction: create_ix(signer, address, 946_560, 8, program),
                accounts: vec![0, 1, 2],
                signer_seeds: vec![vec![b"pda".to_vec(), signer.to_vec(), vec![bump]]],
            },
            Effect::WriteData { account: 1, bytes: record.to_bytes() },
        ]
    );
    let mut wrong = accounts.clone();
    wrong[1].key = k(5);
    assert_eq!(pda_process(&program, &wrong, &record.to_bytes(), 1), Err(ProgramError::InvalidArgument));
    assert_eq!(pda_process(&program, &accounts, &[1, 2, 3], 1), Err(ProgramError::BorshIoError));
    assert_eq!(pda_process(&program, &accounts[..2], &record.to_bytes(), 1), Err(ProgramError::NotEnoughAccountKeys));
}

#[test]
fn caller_invokes_the_counter_program() {
    let accounts = vec![acct(k(1), k(0), 1, vec![], true), acct(k(2), k(3), 1, vec![0; 4], false), acct(k(3), k(0), 1, vec![], false)];
    let expected = Instruction { program_id: k(3), accounts: vec![AccountMeta { pubkey: k(2), is_signer: false, is_writable: true }], data: vec![] };
    assert_eq!(caller_process(&k(9), &accounts, &[]).unwrap(), vec![invoke(expected, vec![1, 2])]);
    assert_eq!(caller_process(&k(9), &accounts[..2], &[]), Err(ProgramError::NotEnoughAccountKeys));
}

#[test]
fn counter_increases_and_decreases() {
    let counter = Counter { count: 10 };
    let accounts = vec![acct(k(2), k(3), 1, counter.to_bytes(), false)];
    let up = CounterInstruction::Increase { amount: 5 }.to_bytes();
    assert_eq!(up, vec![0, 5, 0, 0, 0]);
    assert_eq!(counter_process(&k(3), &accounts, &up).unwrap(), vec![Effect::WriteData { account: 0, bytes: vec![15, 0, 0, 0] }]);
    let down = CounterInstruction::Decrease { amount: 4 }.to_bytes();
    assert_eq!(counter_process(&k(3), &accounts, &down).unwrap(), vec![Effect::WriteData { account: 0, bytes: vec![6, 0, 0, 0] }]);
    // decreasing by what was added gives the count back
    let raised = vec![acct(k(2), k(3), 1, vec![15, 0, 0, 0], false)];
    let back = CounterInstruction::Decrease { amount: 5 }.to_bytes();
    assert_eq!(counter_process(&k(3), &raised, &back).unwrap(), vec![Effect::WriteData { account: 0, bytes: counter.to_bytes() }]);
    assert_eq!(counter_process(&k(3), &accounts, &[2, 0, 0, 0, 0]), Err(ProgramError::BorshIoError));
    assert_eq!(counter_process(&k(3), &[], &up), Err(ProgramError::NotEnoughAccountKeys));
    let garbled = vec![acct(k(2), k(3), 1, vec![1], false)];
    assert_eq!(counter_process(&k(3), &garbled, &up), Err(ProgramError::BorshIoError));
}

#[test]
fn framework_account_handlers() {
    let mut data = DataAccount { value: 0 };
    assert!(create_data_account(&mut data, 42).is_ok());
    assert_eq!(data.value, 42);
    let mut pda_account = PdaAccount { value: 1 };
    assert!(create_pda_account(&mut pda_account, 7).is_ok());
    assert_eq!(pda_account.value, 7);
    let mut message = Message { message: String::new() };
    assert!(initialize(&mut message, "first".to_string()).is_ok());
    assert_eq!(message.message, "first");
    assert!(update(&mut message, "second, longer".to_string()).is_ok());
    assert_eq!(message.message, "second, longer");
    assert_eq!(Message::required_space(14), 30);
}

#[test]
fn counter_overflow_is_reached_only_at_the_right_address() {
    let program = k(60);
    let base = k(61);
    let (address, _) = pda(&[b"pda", &base, &u32::MAX.to_le_bytes()], program);
    let full = vec![
        acct(k(1), k(0), 10_000, vec![], true),
        acct(base, program, 1, u32::MAX.to_le_bytes().to_vec(), false),
        acct(address, k(0), 0, vec![], false),
        acct(SYSTEM_PROGRAM_ID, k(0), 1, vec![], false),
    ];
    // at the next address the increment of the counter would overflow
    assert!(!message_is_defined(&program, &full, &"a".to_string()));
    assert_eq!(try_process_message(&program, &full, "a".to_string(), 1), None);
    // elsewhere the address check refuses first
    let mut wrong = full.clone();
    wrong[2].key = k(9);
    assert!(message_is_defined(&program, &wrong, &"a".to_string()));
    assert_eq!(try_process_message(&program, &wrong, "a".to_string(), 1), Some(Err(ProgramError::InvalidSeeds)));
    // below the largest count the message is stored as usual
    let (first, _) = pda(&[b"pda", &base, &0u32.to_le_bytes()], program);
    let mut fresh = full.clone();
    fresh[1].data = vec![0, 0, 0, 0];
    fresh[2].key = first;
    assert_eq!(try_process_message(&program, &fresh, "a".to_string(), 1), Some(process_message(&program, &fresh, "a".to_string(), 1)));
}
