//! The vesting program's instruction processing.

use vstd::prelude::*;
use crate::account::{AccountState, Effect, EffectView, effects_view, invoke_view, outcome_matches, plain_invoke, seeds_view,
    spec_clock_unix_timestamp, clock_unix_timestamp, write_data};
use crate::codec::{bytes_vec, key_bytes, lemma_fixed_width_roundtrips};
use crate::cpi::{spec_create_account_ix, spec_token_amount_ix, spec_ata_create_ix, ata_derivable, token_transfer};
use crate::error::ProgramError;
use crate::key::{Pubkey, key_eq, SYSTEM_PROGRAM_ID, SPL_TOKEN_PROGRAM_ID};
use crate::address::{program_address, seed_list_view, signer_seeds_with_bump, try_find_program_address};
use crate::vesting::util::{create_escrow_ata, create_pda_account, rent_exempt};
use crate::vesting::error::{VestingError, vesting_error_code};
use crate::vesting::instruction::{VestingInstruction, spec_decode_vesting_instruction};
use crate::vesting::state::{VestingState, VESTING_SEED, spec_encode_vesting, spec_decode_vesting, lemma_vesting_encode_decode,
    claims_at, paid_at, non_decreasing, spec_vested_amount, lemma_claims_pay_what_has_vested,
    spec_claimable, vested_defined, valid_schedule, lemma_vesting_decode_encode, lemma_claim_stays_within_total,
    claim_step, claim_payment};

verus! {

/// The vesting program.
pub struct Processor;

pub open spec fn verr(e: VestingError) -> ProgramError {
    ProgramError::Custom(vesting_error_code(e))
}

/// The seeds of the vesting address of a beneficiary and a mint.
pub open spec fn vesting_seeds(beneficiary: Pubkey, mint: Pubkey) -> Seq<Seq<u8>> {
    seq![VESTING_SEED@, beneficiary@, mint@]
}

/// The same seeds followed by the bump, as used to sign for the address.
pub open spec fn vesting_signer_seeds(beneficiary: Pubkey, mint: Pubkey, bump: u8) -> Seq<Seq<Seq<u8>>> {
    seq![vesting_seeds(beneficiary, mint).push(seq![bump])]
}

/// The time checks of a schedule that initialization accepts.
pub open spec fn schedule_accepted(total_amount: u64, start_time: i64, cliff_time: i64, end_time: i64) -> bool {
    start_time <= cliff_time && cliff_time <= end_time && start_time < end_time && total_amount > 0
}

/// What initialization does. Accounts: admin, vesting address,
/// beneficiary, mint, admin's token account, escrow token account, token
/// program, associated token program, system program, rent sysvar.
/// `rent_minimum` is the rent-exempt balance of a schedule account.
/// The vesting account is created with `VestingState::LEN` bytes; where
/// the encoded schedule is longer, storing it fails and so does the
/// instruction, and the invocations requested before it are not made.
pub open spec fn spec_initialize(
    program_id: Pubkey,
    a: Seq<AccountState>,
    total_amount: u64,
    start_time: i64,
    cliff_time: i64,
    end_time: i64,
    revocable: bool,
    rent_minimum: u64,
) -> Result<Seq<EffectView>, ProgramError> {
    if a.len() < 10 {
        Err(ProgramError::NotEnoughAccountKeys)
    } else if !a[0].is_signer {
        Err(verr(VestingError::Unauthorised))
    } else if a[8].key != SYSTEM_PROGRAM_ID {
        Err(ProgramError::IncorrectProgramId)
    } else if !schedule_accepted(total_amount, start_time, cliff_time, end_time) {
        Err(verr(VestingError::InvalidSchedule))
    } else {
        match program_address(vesting_seeds(a[2].key, a[3].key), program_id@) {
            None => Err(ProgramError::InvalidSeeds),
            Some((pda, bump)) => if a[1].key@ != pda {
                Err(verr(VestingError::InvalidSeeds))
            } else if !ata_derivable(a[1].key, a[3].key, a[6].key) {
                Err(ProgramError::InvalidSeeds)
            } else {
                let state = initial_schedule(a, total_amount, start_time, cliff_time, end_time, revocable, bump);
                if spec_encode_vesting(state).len() > VestingState::LEN {
                    Err(ProgramError::BorshIoError)
                } else if a[6].key != SPL_TOKEN_PROGRAM_ID {
                    Err(ProgramError::IncorrectProgramId)
                } else {
                Ok(seq![
                    EffectView::Invoke {
                        instruction: spec_create_account_ix(a[0].key, a[1].key, rent_minimum, VestingState::LEN as u64, program_id),
                        accounts: seq![1usize, 0usize],
                        signer_seeds: vesting_signer_seeds(a[2].key, a[3].key, bump),
                    },
                    invoke_view(spec_ata_create_ix(a[0].key, a[1].key, a[3].key, a[6].key, 0), seq![0usize, 5usize, 1usize, 3usize, 8usize, 7usize, 9usize]),
                    EffectView::WriteData { account: 1, bytes: spec_encode_vesting(state) },
                    invoke_view(spec_token_amount_ix(a[6].key, 3, a[4].key, a[5].key, a[1].key, Seq::empty(), total_amount), seq![4usize, 5usize, 0usize, 6usize]),
                ])
                }
            },
        }
    }
}

/// What a claim does. Accounts: beneficiary, vesting address, escrow token
/// account, beneficiary's token account, mint, token program, clock sysvar.
pub open spec fn spec_process_claim(program_id: Pubkey, a: Seq<AccountState>) -> Result<Seq<EffectView>, ProgramError> {
    if a.len() < 7 {
        Err(ProgramError::NotEnoughAccountKeys)
    } else if !a[0].is_signer {
        Err(verr(VestingError::Unauthorised))
    } else {
        match spec_decode_vesting(a[1].data@) {
            None => Err(ProgramError::InvalidAccountData),
            Some(state) => match program_address(vesting_seeds(state.beneficiary, state.mint), program_id@) {
                None => Err(ProgramError::InvalidSeeds),
                Some((pda, _bump)) => if a[1].key@ != pda || a[4].key != state.mint {
                    Err(verr(VestingError::Unauthorised))
                } else if a[0].key != state.beneficiary {
                    Err(verr(VestingError::Unauthorised))
                } else if state.claimed_amount >= state.total_amount {
                    Err(verr(VestingError::AlreadyFullyClaimed))
                } else {
                    match spec_clock_unix_timestamp(a[6]) {
                        Err(e) => Err(e),
                        Ok(now) => {
                            let c = spec_claimable(state, now);
                            if c == 0 {
                                Err(verr(VestingError::NothingClaimable))
                            } else if a[5].key != SPL_TOKEN_PROGRAM_ID {
                                Err(ProgramError::IncorrectProgramId)
                            } else {
                                let claimed = if state.claimed_amount + c > u64::MAX { u64::MAX } else { (state.claimed_amount + c) as u64 };
                                Ok(seq![
                                    invoke_view(spec_token_amount_ix(a[5].key, 3, a[2].key, a[3].key, a[1].key, Seq::empty(), c as u64), seq![2usize, 3usize, 5usize]),
                                    EffectView::WriteData { account: 1, bytes: spec_encode_vesting(VestingState { claimed_amount: claimed, ..state }) },
                                ])
                            }
                        },
                    }
                },
            },
        }
    }
}

/// The claim's arithmetic is defined on the inputs that reach it: when
/// the beneficiary signs, the vesting address, the mint and the
/// beneficiary match the stored schedule, something is left to claim and
/// the clock can be read, the vested amount at that time can be computed.
pub open spec fn claim_defined(program_id: Pubkey, a: Seq<AccountState>) -> bool {
    (a.len() >= 7 && a[0].is_signer) ==> match spec_decode_vesting(a[1].data@) {
        None => true,
        Some(state) => match program_address(vesting_seeds(state.beneficiary, state.mint), program_id@) {
            None => true,
            Some((pda, _bump)) => (a[1].key@ == pda && a[4].key == state.mint && a[0].key == state.beneficiary
                && state.claimed_amount < state.total_amount) ==> match spec_clock_unix_timestamp(a[6]) {
                Ok(now) => vested_defined(state, now),
                Err(_) => true,
            },
        },
    }
}

/// Whether a claim's arithmetic is defined.
pub fn claim_is_defined(program_id: &Pubkey, accounts: &[AccountState]) -> (r: bool)
    ensures
        r == claim_defined(*program_id, accounts@),
{
    if accounts.len() < 7 || !accounts[0].is_signer {
        return true;
    }
    let state = match VestingState::try_from_slice(accounts[1].data.as_slice()) {
        Some(s) => s,
        None => return true,
    };
    let seeds = make_vesting_seeds(&state.beneficiary, &state.mint);
    let (expected, _bump) = match try_find_program_address(&seeds, program_id) {
        Some(found) => found,
        None => return true,
    };
    if !key_eq(&accounts[1].key, &expected) || !key_eq(&accounts[4].key, &state.mint)
        || !key_eq(&accounts[0].key, &state.beneficiary) || state.fully_claimed() {
        return true;
    }
    match clock_unix_timestamp(&accounts[6]) {
        Ok(now) => state.vested_is_defined(now),
        Err(_) => true,
    }
}

/// Whether the program's arithmetic is defined on an instruction: only a
/// claim computes a vested amount.
pub open spec fn process_defined(program_id: Pubkey, a: Seq<AccountState>, data: Seq<u8>) -> bool {
    spec_decode_vesting_instruction(data) == Some(VestingInstruction::Claim {}) ==> claim_defined(program_id, a)
}

/// What revocation checks. Accounts: admin, vesting address, escrow,
/// admin's destination, mint, token program, system program. It makes no
/// change.
pub open spec fn spec_revoke_and_claim(program_id: Pubkey, a: Seq<AccountState>) -> Result<Seq<EffectView>, ProgramError> {
    if a.len() < 7 {
        Err(ProgramError::NotEnoughAccountKeys)
    } else if !a[0].is_signer {
        Err(verr(VestingError::Unauthorised))
    } else if a[6].key != SYSTEM_PROGRAM_ID {
        Err(ProgramError::IncorrectProgramId)
    } else {
        match spec_decode_vesting(a[1].data@) {
            None => Err(ProgramError::InvalidAccountData),
            Some(state) => if a[0].key != state.admin {
                Err(verr(VestingError::Unauthorised))
            } else if a[4].key != state.mint {
                Err(verr(VestingError::InvalidAccountData))
            } else {
                Ok(Seq::empty())
            },
        }
    }
}

/// What the program does with instruction data `data`.
pub open spec fn spec_process(program_id: Pubkey, a: Seq<AccountState>, data: Seq<u8>, rent_minimum: u64) -> Result<Seq<EffectView>, ProgramError> {
    match spec_decode_vesting_instruction(data) {
        None => Err(ProgramError::InvalidInstructionData),
        Some(VestingInstruction::Initialize { total_amount, start_time, cliff_time, end_time, revocable }) =>
            spec_initialize(program_id, a, total_amount, start_time, cliff_time, end_time, revocable, rent_minimum),
        Some(VestingInstruction::Claim {}) => spec_process_claim(program_id, a),
        Some(VestingInstruction::CloseAndRevoke {}) => spec_revoke_and_claim(program_id, a),
    }
}

/// The seeds of the vesting address.
fn make_vesting_seeds(beneficiary: &Pubkey, mint: &Pubkey) -> (r: Vec<Vec<u8>>)
    ensures
        seed_list_view(r) == vesting_seeds(*beneficiary, *mint),
{
    let seed = VESTING_SEED;
    let mut seeds: Vec<Vec<u8>> = Vec::new();
    seeds.push(bytes_vec(seed.as_slice()));
    seeds.push(key_bytes(beneficiary));
    seeds.push(key_bytes(mint));
    assert(seed_list_view(seeds) =~= vesting_seeds(*beneficiary, *mint));
    seeds
}

impl Processor {
    /// Decodes the instruction and runs it. `rent_minimum` is the
    /// rent-exempt balance of a schedule account.
    pub fn process(program_id: &Pubkey, accounts: &[AccountState], data: &[u8], rent_minimum: u64) -> (r: Result<Vec<Effect>, ProgramError>)
        requires
            process_defined(*program_id, accounts@, data@),
        ensures
            outcome_matches(r, spec_process(*program_id, accounts@, data@, rent_minimum)),
    {
        let instruction = match VestingInstruction::try_from_slice(data) {
            Some(i) => i,
            None => return Err(ProgramError::InvalidInstructionData),
        };
        match instruction {
            VestingInstruction::Initialize { total_amount, start_time, cliff_time, end_time, revocable } =>
                Self::initialize(program_id, accounts, total_amount, start_time, cliff_time, end_time, revocable, rent_minimum),
            VestingInstruction::Claim {} => Self::process_claim(program_id, accounts),
            VestingInstruction::CloseAndRevoke {} => Self::revoke_and_claim(program_id, accounts),
        }
    }

    /// Runs the instruction where its arithmetic is defined, and gives
    /// `None` on a claim whose vested amount cannot be computed (where the
    /// program panics).
    pub fn try_process(program_id: &Pubkey, accounts: &[AccountState], data: &[u8], rent_minimum: u64) -> (r: Option<Result<Vec<Effect>, ProgramError>>)
        ensures
            r is None <==> !process_defined(*program_id, accounts@, data@),
            r matches Some(res) ==> outcome_matches(res, spec_process(*program_id, accounts@, data@, rent_minimum)),
    {
        let is_claim = match VestingInstruction::try_from_slice(data) {
            Some(VestingInstruction::Claim {}) => true,
            _ => false,
        };
        if is_claim && !claim_is_defined(program_id, accounts) {
            return None;
        }
        Some(Self::process(program_id, accounts, data, rent_minimum))
    }

    /// Sets up a schedule: creates the vesting account at its program
    /// address, creates the escrow token account, stores the schedule and
    /// moves the total into escrow.
    pub fn initialize(
        program_id: &Pubkey,
        accounts: &[AccountState],
        total_amount: u64,
        start_time: i64,
        cliff_time: i64,
        end_time: i64,
        revocable: bool,
        rent_minimum: u64,
    ) -> (r: Result<Vec<Effect>, ProgramError>)
        ensures
            outcome_matches(r, spec_initialize(*program_id, accounts@, total_amount, start_time, cliff_time, end_time, revocable, rent_minimum)),
    {
        if accounts.len() < 10 {
            return Err(ProgramError::NotEnoughAccountKeys);
        }
        let admin = &accounts[0];
        let vesting_pda = &accounts[1];
        let beneficiary = &accounts[2];
        let mint_account = &accounts[3];
        let admin_src_ata = &accounts[4];
        let escrow_ata = &accounts[5];
        let token_program = &accounts[6];
        let system_program = &accounts[8];
        if !admin.is_signer {
            return Err(ProgramError::from(VestingError::Unauthorised));
        }
        let system_id = SYSTEM_PROGRAM_ID;
        if !key_eq(&system_program.key, &system_id) {
            return Err(ProgramError::IncorrectProgramId);
        }
        if !(start_time <= cliff_time && cliff_time <= end_time && start_time < end_time && total_amount > 0) {
            return Err(ProgramError::from(VestingError::InvalidSchedule));
        }
        let seeds = make_vesting_seeds(&beneficiary.key, &mint_account.key);
        let (expected, vesting_bump) = match try_find_program_address(&seeds, program_id) {
            Some(found) => found,
            None => return Err(ProgramError::InvalidSeeds),
        };
        if !key_eq(&vesting_pda.key, &expected) {
            return Err(ProgramError::from(VestingError::InvalidSeeds));
        }
        let ata_seeds_ok = match crate::cpi::ata_address(&vesting_pda.key, &mint_account.key, &token_program.key) {
            Some(_) => true,
            None => false,
        };
        if !ata_seeds_ok {
            return Err(ProgramError::InvalidSeeds);
        }
        let state = VestingState {
            beneficiary: beneficiary.key,
            admin: admin.key,
            mint: mint_account.key,
            escrow_ata: escrow_ata.key,
            start_time,
            cliff_time,
            end_time,
            total_amount,
            claimed_amount: 0,
            revocable,
            vesting_bump,
        };
        let state_bytes = state.to_bytes();
        // the schedule is stored into the account just created with
        // `VestingState::LEN` bytes; where it does not fit, storing fails
        if state_bytes.len() > VestingState::LEN {
            return Err(ProgramError::BorshIoError);
        }
        let transfer_ix = match token_transfer(&token_program.key, &admin_src_ata.key, &escrow_ata.key, &vesting_pda.key, &Vec::new(), total_amount) {
            Some(ix) => ix,
            None => return Err(ProgramError::IncorrectProgramId),
        };
        let mut effects: Vec<Effect> = Vec::new();
        // create the vesting account, signed for by its program address
        let signer_seeds = signer_seeds_with_bump(seeds, vesting_bump);
        proof {
            assert(seeds_view(signer_seeds) =~= vesting_signer_seeds(beneficiary.key, mint_account.key, vesting_bump));
        }
        effects.push(create_pda_account(accounts, 0, 1, program_id, signer_seeds, VestingState::LEN, rent_minimum));
        // create the escrow token account owned by the vesting address
        effects.push(create_escrow_ata(accounts, 0, 1, 3, 5, 7, 6, 8, 9));
        effects.push(write_data(1, state_bytes));
        effects.push(plain_invoke(transfer_ix, &[4usize, 5usize, 0usize, 6usize]));
        // the new account holds exactly the rent-exempt minimum
        rent_exempt(rent_minimum, rent_minimum)?;
        proof {
            assert(effects_view(effects) =~= spec_initialize(*program_id, accounts@, total_amount, start_time, cliff_time, end_time, revocable, rent_minimum).unwrap());
        }
        Ok(effects)
    }

    /// Pays the beneficiary the claimable amount and records it as claimed.
    pub fn process_claim(program_id: &Pubkey, accounts: &[AccountState]) -> (r: Result<Vec<Effect>, ProgramError>)
        requires
            claim_defined(*program_id, accounts@),
        ensures
            outcome_matches(r, spec_process_claim(*program_id, accounts@)),
    {
        if accounts.len() < 7 {
            return Err(ProgramError::NotEnoughAccountKeys);
        }
        let beneficiary = &accounts[0];
        let vesting_pda = &accounts[1];
        let escrow_ata = &accounts[2];
        let beneficiary_ata = &accounts[3];
        let mint_account = &accounts[4];
        let token_program = &accounts[5];
        let clock_ai = &accounts[6];
        if !beneficiary.is_signer {
            return Err(ProgramError::from(VestingError::Unauthorised));
        }
        let mut state = match VestingState::try_from_slice(vesting_pda.data.as_slice()) {
            Some(s) => s,
            None => return Err(ProgramError::InvalidAccountData),
        };
        let seeds = make_vesting_seeds(&state.beneficiary, &state.mint);
        let (expected, _bump) = match try_find_program_address(&seeds, program_id) {
            Some(found) => found,
            None => return Err(ProgramError::InvalidSeeds),
        };
        if !key_eq(&vesting_pda.key, &expected) || !key_eq(&mint_account.key, &state.mint) {
            return Err(ProgramError::from(VestingError::Unauthorised));
        }
        if !key_eq(&beneficiary.key, &state.beneficiary) {
            return Err(ProgramError::from(VestingError::Unauthorised));
        }
        if state.fully_claimed() {
            return Err(ProgramError::from(VestingError::AlreadyFullyClaimed));
        }
        let now = clock_unix_timestamp(clock_ai)?;
        let claimable = state.claimable(now);
        if claimable == 0 {
            return Err(ProgramError::from(VestingError::NothingClaimable));
        }
        let transfer_ix = match token_transfer(&token_program.key, &escrow_ata.key, &beneficiary_ata.key, &vesting_pda.key, &Vec::new(), claimable) {
            Some(ix) => ix,
            None => return Err(ProgramError::IncorrectProgramId),
        };
        let mut effects: Vec<Effect> = Vec::new();
        effects.push(plain_invoke(transfer_ix, &[2usize, 3usize, 5usize]));
        state.claimed_amount = state.claimed_amount.saturating_add(claimable);
        effects.push(write_data(1, state.to_bytes()));
        proof {
            let sp = spec_process_claim(*program_id, accounts@);
            assert(sp is Ok);
            assert(effects_view(effects)[0] == sp.unwrap()[0]);
            assert(effects_view(effects)[1] == sp.unwrap()[1]);
            assert(effects_view(effects) =~= spec_process_claim(*program_id, accounts@).unwrap());
        }
        Ok(effects)
    }

    /// Checks a revocation request: the admin signs, the system program
    /// and the mint match the schedule.
    pub fn revoke_and_claim(program_id: &Pubkey, accounts: &[AccountState]) -> (r: Result<Vec<Effect>, ProgramError>)
        ensures
            outcome_matches(r, spec_revoke_and_claim(*program_id, accounts@)),
    {
        if accounts.len() < 7 {
            return Err(ProgramError::NotEnoughAccountKeys);
        }
        let admin = &accounts[0];
        let vesting_pda = &accounts[1];
        let mint_account = &accounts[4];
        let system_program_ai = &accounts[6];
        if !admin.is_signer {
            return Err(ProgramError::from(VestingError::Unauthorised));
        }
        let system_id = SYSTEM_PROGRAM_ID;
        if !key_eq(&system_program_ai.key, &system_id) {
            return Err(ProgramError::IncorrectProgramId);
        }
        let state = match VestingState::try_from_slice(vesting_pda.data.as_slice()) {
            Some(s) => s,
            None => return Err(ProgramError::InvalidAccountData),
        };
        if !key_eq(&admin.key, &state.admin) {
            return Err(ProgramError::from(VestingError::Unauthorised));
        }
        if !key_eq(&mint_account.key, &state.mint) {
            return Err(ProgramError::from(VestingError::InvalidAccountData));
        }
        let effects: Vec<Effect> = Vec::new();
        proof {
            assert(effects_view(effects) =~= Seq::<EffectView>::empty());
        }
        Ok(effects)
    }
}

/// The schedule that effect `i` of `e` stores in the vesting account, if
/// it is a write of a schedule there.
pub open spec fn stored_schedule(e: Seq<EffectView>, i: int) -> Option<VestingState> {
    if 0 <= i < e.len() {
        match e[i] {
            EffectView::WriteData { account, bytes } => if account == 1 { spec_decode_vesting(bytes) } else { None },
            _ => None,
        }
    } else {
        None
    }
}

/// The schedule that initialization builds for the vesting account.
pub open spec fn initial_schedule(
    a: Seq<AccountState>,
    total_amount: u64,
    start_time: i64,
    cliff_time: i64,
    end_time: i64,
    revocable: bool,
    bump: u8,
) -> VestingState {
    VestingState {
        beneficiary: a[2].key,
        admin: a[0].key,
        mint: a[3].key,
        escrow_ata: a[5].key,
        start_time,
        cliff_time,
        end_time,
        total_amount,
        claimed_amount: 0,
        revocable,
        vesting_bump: bump,
    }
}

/// The schedule that initialization builds from accepted times is a valid
/// schedule of the requested total with nothing claimed yet.
pub proof fn lemma_initial_schedule_is_valid(
    a: Seq<AccountState>,
    total_amount: u64,
    start_time: i64,
    cliff_time: i64,
    end_time: i64,
    revocable: bool,
    bump: u8,
)
    requires
        schedule_accepted(total_amount, start_time, cliff_time, end_time),
    ensures
        ({
            let st = initial_schedule(a, total_amount, start_time, cliff_time, end_time, revocable, bump);
            valid_schedule(st) && st.claimed_amount == 0 && st.total_amount == total_amount
                && spec_decode_vesting(spec_encode_vesting(st)) == Some(st)
        }),
{
    lemma_vesting_decode_encode(initial_schedule(a, total_amount, start_time, cliff_time, end_time, revocable, bump));
}

/// Initialization never succeeds: the encoded schedule (170 bytes) does
/// not fit the vesting account of `VestingState::LEN` bytes it creates.
pub proof fn lemma_initialize_never_succeeds(
    program_id: Pubkey,
    a: Seq<AccountState>,
    total_amount: u64,
    start_time: i64,
    cliff_time: i64,
    end_time: i64,
    revocable: bool,
    rent_minimum: u64,
)
    ensures
        spec_initialize(program_id, a, total_amount, start_time, cliff_time, end_time, revocable, rent_minimum) is Err,
{
    lemma_fixed_width_roundtrips();
    assert forall|st: VestingState| #[trigger] spec_encode_vesting(st).len() == 170 by {
        assert(st.beneficiary@.len() == 32 && st.admin@.len() == 32 && st.mint@.len() == 32 && st.escrow_ata@.len() == 32);
    }
}

/// A claim keeps the schedule valid and the claimed amount within the
/// total: it adds exactly the amount it transfers.
pub proof fn lemma_claim_keeps_schedule(program_id: Pubkey, a: Seq<AccountState>)
    requires
        spec_process_claim(program_id, a) is Ok,
        valid_schedule(spec_decode_vesting(a[1].data@).unwrap()),
        spec_decode_vesting(a[1].data@).unwrap().claimed_amount <= spec_decode_vesting(a[1].data@).unwrap().total_amount,
    ensures
        ({
            let before = spec_decode_vesting(a[1].data@).unwrap();
            let now = spec_clock_unix_timestamp(a[6]).unwrap();
            spec_process_claim(program_id, a) matches Ok(e)
                && (stored_schedule(e, 1) matches Some(after)
                && (valid_schedule(after)
                && after.claimed_amount <= after.total_amount
                && after.claimed_amount == before.claimed_amount + spec_claimable(before, now)
                && after == VestingState { claimed_amount: after.claimed_amount, ..before }
                && after == claim_step(before, now)
                && e[0] == invoke_view(spec_token_amount_ix(a[5].key, 3, a[2].key, a[3].key, a[1].key, Seq::empty(),
                    claim_payment(before, now) as u64), seq![2usize, 3usize, 5usize])))
        }),
{
    let before = spec_decode_vesting(a[1].data@).unwrap();
    let now = spec_clock_unix_timestamp(a[6]).unwrap();
    lemma_claim_stays_within_total(before, now);
    let c = spec_claimable(before, now);
    lemma_vesting_decode_encode(VestingState { claimed_amount: (before.claimed_amount + c) as u64, ..before });
}

/// A refused claim, for nothing claimable or for a fully claimed schedule,
/// makes no change, as the step of the schedule at that time says.
pub proof fn lemma_refused_claim_changes_nothing(program_id: Pubkey, a: Seq<AccountState>)
    requires
        spec_process_claim(program_id, a) == Err::<Seq<EffectView>, ProgramError>(verr(VestingError::NothingClaimable))
            || spec_process_claim(program_id, a) == Err::<Seq<EffectView>, ProgramError>(verr(VestingError::AlreadyFullyClaimed)),
    ensures
        spec_decode_vesting(a[1].data@) matches Some(before) && (before.claimed_amount >= before.total_amount
            || (spec_clock_unix_timestamp(a[6]) matches Ok(now) && claim_step(before, now) == before)),
{
}

/// A second claim at the same time as a successful one, against the
/// schedule it stored, gets nothing: it is refused as having nothing
/// claimable, or as fully claimed once everything is claimed.
pub proof fn lemma_repeat_claim_gets_nothing(program_id: Pubkey, a: Seq<AccountState>, a2: Seq<AccountState>)
    requires
        spec_process_claim(program_id, a) matches Ok(e) && e[1] == (EffectView::WriteData { account: 1, bytes: a2[1].data@ }),
        valid_schedule(spec_decode_vesting(a[1].data@).unwrap()),
        spec_decode_vesting(a[1].data@).unwrap().claimed_amount <= spec_decode_vesting(a[1].data@).unwrap().total_amount,
        a2.len() == a.len(),
        forall|i: int| 0 <= i < a.len() && i != 1 ==> a2[i] == a[i],
        a2[1].key == a[1].key,
    ensures
        spec_process_claim(program_id, a2) == Err::<Seq<EffectView>, ProgramError>(verr(VestingError::NothingClaimable))
            || spec_process_claim(program_id, a2) == Err::<Seq<EffectView>, ProgramError>(verr(VestingError::AlreadyFullyClaimed)),
{
    let before = spec_decode_vesting(a[1].data@).unwrap();
    let now = spec_clock_unix_timestamp(a[6]).unwrap();
    lemma_claim_stays_within_total(before, now);
    let c = spec_claimable(before, now);
    let after = VestingState { claimed_amount: (before.claimed_amount + c) as u64, ..before };
    lemma_vesting_decode_encode(after);
    assert(a2[0] == a[0] && a2[4] == a[4] && a2[6] == a[6]);
    assert(spec_decode_vesting(a2[1].data@) == Some(after));
    assert(spec_claimable(after, now) == 0);
}


/// The schedule bytes in the vesting account after a claim: what the
/// claim writes, or the bytes as they were when it is refused.
pub open spec fn schedule_after_claim(program_id: Pubkey, a: Seq<AccountState>) -> Seq<u8> {
    match spec_process_claim(program_id, a) {
        Ok(e) => match e[1] {
            EffectView::WriteData { bytes, .. } => bytes,
            _ => a[1].data@,
        },
        Err(_) => a[1].data@,
    }
}

/// A claim that passes every check but the amount: enough accounts, the
/// beneficiary signs, the vesting address, the mint and the beneficiary
/// match the stored schedule, the token program is the token program and
/// the clock can be read.
pub open spec fn claim_authorized(program_id: Pubkey, a: Seq<AccountState>) -> bool {
    &&& a.len() >= 7
    &&& a[0].is_signer
    &&& spec_decode_vesting(a[1].data@) matches Some(st)
    &&& program_address(vesting_seeds(st.beneficiary, st.mint), program_id@) matches Some((pda, _bump))
    &&& a[1].key@ == pda && a[4].key == st.mint && a[0].key == st.beneficiary
    &&& a[5].key == SPL_TOKEN_PROGRAM_ID
    &&& spec_clock_unix_timestamp(a[6]) is Ok
}

/// The next claim of a sequence: the same accounts, but the vesting
/// account holds what the previous claim left there and the clock may
/// have moved on.
pub open spec fn next_claim(program_id: Pubkey, prev: Seq<AccountState>, next: Seq<AccountState>) -> bool {
    &&& next.len() == prev.len()
    &&& forall|j: int| 0 <= j < prev.len() && j != 1 && j != 6 ==> #[trigger] next[j] == prev[j]
    &&& next[1].key == prev[1].key
    &&& next[1].data@ == schedule_after_claim(program_id, prev)
    &&& next[6].key == prev[6].key
}

/// The clock times of a sequence of claims.
pub open spec fn claim_times(calls: Seq<Seq<AccountState>>) -> Seq<i64> {
    Seq::new(calls.len(), |i: int| spec_clock_unix_timestamp(calls[i][6]).unwrap())
}

/// One claim on a valid schedule that passes the checks takes one step of
/// the schedule: it stores that step, transfers the step's payment, and
/// when it pays nothing it is refused and leaves the bytes as they were.
proof fn lemma_claim_call_steps(program_id: Pubkey, a: Seq<AccountState>, s: VestingState)
    requires
        claim_authorized(program_id, a),
        spec_decode_vesting(a[1].data@) == Some(s),
        valid_schedule(s),
        s.claimed_amount <= s.total_amount,
    ensures
        ({
            let t = spec_clock_unix_timestamp(a[6]).unwrap();
            &&& spec_decode_vesting(schedule_after_claim(program_id, a)) == Some(claim_step(s, t))
            &&& (spec_process_claim(program_id, a) is Ok <==> claim_payment(s, t) > 0)
            &&& (spec_process_claim(program_id, a) matches Ok(e) ==> e[0] == invoke_view(spec_token_amount_ix(a[5].key, 3, a[2].key,
                    a[3].key, a[1].key, Seq::empty(), claim_payment(s, t) as u64), seq![2usize, 3usize, 5usize]))
            &&& (spec_process_claim(program_id, a) is Err ==> schedule_after_claim(program_id, a) == a[1].data@)
        }),
{
    lemma_vesting_encode_decode(a[1].data@);
    if spec_process_claim(program_id, a) is Ok {
        lemma_claim_keeps_schedule(program_id, a);
        let now = spec_clock_unix_timestamp(a[6]).unwrap();
        lemma_vesting_decode_encode(claim_step(s, now));
    }
}

/// Claims made one after another at times that never go back, on a valid
/// schedule with nothing claimed: each call stores the next step of the
/// schedule and transfers exactly that step's payment (a refused call
/// transfers nothing and changes nothing); after the last call the stored
/// claimed amount is everything transferred, equals the amount vested at
/// the last time, and stays within the total.
pub proof fn lemma_claim_calls_pay_what_has_vested(program_id: Pubkey, calls: Seq<Seq<AccountState>>)
    requires
        calls.len() > 0,
        claim_authorized(program_id, calls[0]),
        spec_decode_vesting(calls[0][1].data@) matches Some(s) && valid_schedule(s) && s.claimed_amount == 0,
        forall|i: int| 0 < i < calls.len() ==> #[trigger] next_claim(program_id, calls[i - 1], calls[i]),
        forall|i: int| 0 <= i < calls.len() ==> (#[trigger] spec_clock_unix_timestamp(calls[i][6])) is Ok,
        non_decreasing(claim_times(calls)),
    ensures
        ({
            let s = spec_decode_vesting(calls[0][1].data@).unwrap();
            let times = claim_times(calls);
            &&& forall|i: int| 0 <= i < calls.len() ==> {
                &&& spec_decode_vesting(#[trigger] calls[i][1].data@) == Some(claims_at(s, times.take(i)))
                &&& (spec_process_claim(program_id, calls[i]) matches Ok(e) ==> e[0] == invoke_view(spec_token_amount_ix(
                        calls[0][5].key, 3, calls[0][2].key, calls[0][3].key, calls[0][1].key, Seq::empty(),
                        claim_payment(claims_at(s, times.take(i)), times[i]) as u64), seq![2usize, 3usize, 5usize]))
                &&& (spec_process_claim(program_id, calls[i]) is Err ==> claim_payment(claims_at(s, times.take(i)), times[i]) == 0)
            }
            &&& spec_decode_vesting(schedule_after_claim(program_id, calls.last())) matches Some(fin)
                && fin == claims_at(s, times)
                && fin.claimed_amount == paid_at(s, times)
                && fin.claimed_amount == spec_vested_amount(s, times.last())
                && fin.claimed_amount <= s.total_amount
        }),
{
    let s = spec_decode_vesting(calls[0][1].data@).unwrap();
    let times = claim_times(calls);
    assert forall|i: int| 0 <= i < calls.len() implies {
        &&& spec_decode_vesting(#[trigger] calls[i][1].data@) == Some(claims_at(s, times.take(i)))
        &&& (spec_process_claim(program_id, calls[i]) matches Ok(e) ==> e[0] == invoke_view(spec_token_amount_ix(
                calls[0][5].key, 3, calls[0][2].key, calls[0][3].key, calls[0][1].key, Seq::empty(),
                claim_payment(claims_at(s, times.take(i)), times[i]) as u64), seq![2usize, 3usize, 5usize]))
        &&& (spec_process_claim(program_id, calls[i]) is Err ==> claim_payment(claims_at(s, times.take(i)), times[i]) == 0)
    } by {
        lemma_claim_call(program_id, calls, s, i);
    }
    let n = calls.len() - 1;
    lemma_claim_call(program_id, calls, s, n);
    assert(times.take(n + 1) =~= times);
    lemma_claims_pay_what_has_vested(s, times);
}

/// The claims of a sequence up to call `i`, by induction on `i`.
proof fn lemma_claim_call(program_id: Pubkey, calls: Seq<Seq<AccountState>>, s: VestingState, i: int)
    requires
        0 <= i < calls.len(),
        claim_authorized(program_id, calls[0]),
        spec_decode_vesting(calls[0][1].data@) == Some(s),
        valid_schedule(s),
        s.claimed_amount == 0,
        forall|j: int| 0 < j < calls.len() ==> #[trigger] next_claim(program_id, calls[j - 1], calls[j]),
        forall|j: int| 0 <= j < calls.len() ==> (#[trigger] spec_clock_unix_timestamp(calls[j][6])) is Ok,
        non_decreasing(claim_times(calls)),
    ensures
        ({
            let times = claim_times(calls);
            let c = claims_at(s, times.take(i));
            &&& spec_decode_vesting(calls[i][1].data@) == Some(c)
            &&& claim_authorized(program_id, calls[i])
            &&& calls[i].len() == calls[0].len()
            &&& forall|j: int| 0 <= j < calls[0].len() && j != 1 && j != 6 ==> calls[i][j] == calls[0][j]
            &&& calls[i][1].key == calls[0][1].key
            &&& spec_decode_vesting(schedule_after_claim(program_id, calls[i])) == Some(claims_at(s, times.take(i + 1)))
            &&& (spec_process_claim(program_id, calls[i]) matches Ok(e) ==> e[0] == invoke_view(spec_token_amount_ix(
                    calls[0][5].key, 3, calls[0][2].key, calls[0][3].key, calls[0][1].key, Seq::empty(),
                    claim_payment(c, times[i]) as u64), seq![2usize, 3usize, 5usize]))
            &&& (spec_process_claim(program_id, calls[i]) is Err ==> claim_payment(c, times[i]) == 0)
        }),
    decreases i,
{
    let times = claim_times(calls);
    let p = times.take(i);
    assert forall|x: int, y: int| 0 <= x <= y < p.len() implies p[x] <= p[y] by {
        assert(p[x] == times[x] && p[y] == times[y]);
    }
    lemma_claims_pay_what_has_vested(s, p);
    let c = claims_at(s, p);
    if i > 0 {
        lemma_claim_call(program_id, calls, s, i - 1);
        assert(next_claim(program_id, calls[i - 1], calls[i]));
        assert(times.take(i - 1 + 1) =~= p);
        let prev = calls[i - 1];
        let cur = calls[i];
        assert forall|j: int| 0 <= j < calls[0].len() && j != 1 && j != 6 implies cur[j] == calls[0][j] by {
            assert(cur[j] == prev[j]);
        }
        assert(cur[0] == prev[0] && cur[4] == prev[4] && cur[5] == prev[5]);
    }
    assert(spec_clock_unix_timestamp(calls[i][6]) is Ok);
    assert(times[i] == spec_clock_unix_timestamp(calls[i][6]).unwrap());
    lemma_claim_call_steps(program_id, calls[i], c);
    assert(times.take(i + 1).drop_last() =~= p);
    assert(times.take(i + 1).last() == times[i]);
}

} // verus!
