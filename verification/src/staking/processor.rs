//! Instruction processing of the staking program.

use vstd::prelude::*;
use crate::account::{AccountState, Effect, EffectView, effects_view, outcome_matches, write_data};
use crate::error::ProgramError;
use crate::key::{Pubkey, key_eq};
use crate::staking::error::{StakeError, serr};
use crate::staking::instruction::{StakingInstruction, spec_decode_staking_instruction};
use crate::staking::state::{Pool, Stored, lemma_pool_roundtrip, spec_decode_pool, spec_encode_pool};

verus! {

/// What loading an account gives: the one value its data encodes, or
/// invalid account data.
pub open spec fn spec_load<T: Stored>(data: Seq<u8>) -> Result<T, ProgramError> {
    match T::decoded(data) {
        Some(x) => Ok(x),
        None => Err(ProgramError::InvalidAccountData),
    }
}

/// Reads the value stored in an account; data that does not hold exactly
/// one value is invalid account data.
pub fn load_account<T: Stored>(account: &AccountState) -> (r: Result<T, ProgramError>)
    ensures
        r == spec_load::<T>(account.data@),
{
    match T::read(account.data.as_slice()) {
        Some(x) => Ok(x),
        None => Err(ProgramError::InvalidAccountData),
    }
}

/// Stores `data` at the start of the account at position `index`; an
/// account too small to hold it is invalid account data.
pub fn save_account<T: Stored>(index: usize, account: &AccountState, data: &T) -> (r: Result<Effect, ProgramError>)
    ensures
        account.data@.len() < data.encoded().len() ==> r == Err::<Effect, ProgramError>(ProgramError::InvalidAccountData),
        account.data@.len() >= data.encoded().len() ==> (r matches Ok(e) && e@ == (EffectView::WriteData { account: index, bytes: data.encoded() })),
{
    let bytes = data.store();
    if account.data.len() < bytes.len() {
        return Err(ProgramError::InvalidAccountData);
    }
    Ok(write_data(index, bytes))
}

/// Loading reads back what saving wrote: once the value's bytes fill the
/// account's data, loading gives the value; and wherever the data is not
/// exactly the encoding of one value, loading gives invalid account data.
pub proof fn lemma_load_reads_what_save_wrote<T: Stored>(x: T, data: Seq<u8>)
    ensures
        data == x.encoded() ==> spec_load::<T>(data) == Ok::<T, ProgramError>(x),
        (forall|y: T| #[trigger] y.encoded() != data) ==> spec_load::<T>(data) == Err::<T, ProgramError>(ProgramError::InvalidAccountData),
{
    T::lemma_stored_roundtrip(x, data);
    if let Some(y) = T::decoded(data) {
        T::lemma_stored_roundtrip(y, data);
    }
}

/// The pool a new staking pool starts as. Its staked-tokens vault field
/// records the staking mint's address, as the set-up writes it.
pub open spec fn new_pool(a: Seq<AccountState>, reward_rate: u32, now: i64) -> Pool {
    Pool {
        authority: a[1].key,
        staking_mint: a[2].key,
        reward_mint: a[3].key,
        vault: a[4].key,
        vault_staked_tokens: a[2].key,
        vault_reward_token: a[5].key,
        reward_rate,
        total_staked: 0,
        last_update_time: now,
    }
}

/// What setting up a pool does. Accounts: pool, authority, staking mint,
/// reward mint, vault, reward vault. `now` is the clock's unix time.
pub open spec fn spec_initialize_pool(program_id: Pubkey, a: Seq<AccountState>, reward_rate: u32, now: i64) -> Result<Seq<EffectView>, ProgramError> {
    if a.len() < 6 {
        Err(ProgramError::NotEnoughAccountKeys)
    } else if a[0].owner != program_id {
        Err(ProgramError::IncorrectProgramId)
    } else if !a[1].is_signer {
        Err(ProgramError::MissingRequiredSignature)
    } else if a[0].data@.len() < Pool::LEN {
        Err(ProgramError::InvalidAccountData)
    } else {
        Ok(seq![EffectView::WriteData { account: 0, bytes: spec_encode_pool(new_pool(a, reward_rate, now)) }])
    }
}

/// Sets up a pool owned by this program, signed by its authority.
pub fn initialize_pool(program_id: &Pubkey, accounts: &[AccountState], reward_rate: u32, now: i64) -> (r: Result<Vec<Effect>, ProgramError>)
    ensures
        outcome_matches(r, spec_initialize_pool(*program_id, accounts@, reward_rate, now)),
{
    if accounts.len() < 6 {
        return Err(ProgramError::NotEnoughAccountKeys);
    }
    let pool_account = &accounts[0];
    let authority_account = &accounts[1];
    let staking_mint_account = &accounts[2];
    let reward_mint_account = &accounts[3];
    let vault_account = &accounts[4];
    let reward_vault_account = &accounts[5];
    if !key_eq(&pool_account.owner, program_id) {
        return Err(ProgramError::IncorrectProgramId);
    }
    if !authority_account.is_signer {
        return Err(ProgramError::MissingRequiredSignature);
    }
    let pool = Pool {
        authority: authority_account.key,
        staking_mint: staking_mint_account.key,
        reward_mint: reward_mint_account.key,
        vault: vault_account.key,
        vault_staked_tokens: staking_mint_account.key,
        vault_reward_token: reward_vault_account.key,
        reward_rate,
        total_staked: 0,
        last_update_time: now,
    };
    proof {
        lemma_pool_roundtrip(pool, pool.encoded());
    }
    let effect = match save_account(0, pool_account, &pool) {
        Ok(e) => e,
        Err(e) => return Err(e),
    };
    let mut effects: Vec<Effect> = Vec::new();
    effects.push(effect);
    proof {
        assert(effects_view(effects) =~= spec_initialize_pool(*program_id, accounts@, reward_rate, now).unwrap());
    }
    Ok(effects)
}

/// What a stake request is checked for. Accounts: user, user's stake,
/// pool, user's source token account, vault, token program.
pub open spec fn spec_process_stake(program_id: Pubkey, a: Seq<AccountState>, amount: u64) -> Result<(), ProgramError> {
    if a.len() < 6 {
        Err(ProgramError::NotEnoughAccountKeys)
    } else if !a[0].is_signer {
        Err(ProgramError::MissingRequiredSignature)
    } else if a[2].owner != program_id || a[1].owner != program_id {
        Err(ProgramError::MissingRequiredSignature)
    } else if amount == 0 {
        Err(ProgramError::InvalidInstructionData)
    } else {
        Ok(())
    }
}

/// Checks a stake request: the user signs, pool and stake accounts belong
/// to this program and the amount is positive.
pub fn process_stake(program_id: &Pubkey, accounts: &[AccountState], amount: u64) -> (r: Result<(), ProgramError>)
    ensures
        r == spec_process_stake(*program_id, accounts@, amount),
{
    if accounts.len() < 6 {
        return Err(ProgramError::NotEnoughAccountKeys);
    }
    let user_account = &accounts[0];
    let user_stake_account = &accounts[1];
    let pool_account = &accounts[2];
    if !user_account.is_signer {
        return Err(ProgramError::MissingRequiredSignature);
    }
    if !key_eq(&pool_account.owner, program_id) || !key_eq(&user_stake_account.owner, program_id) {
        return Err(ProgramError::MissingRequiredSignature);
    }
    if amount == 0 {
        return Err(ProgramError::InvalidInstructionData);
    }
    Ok(())
}

/// The staking program.
pub struct Processor;

/// What the program does with instruction data: set-up takes the amount as
/// the reward rate, which must fit in 32 bits; staking performs the checks
/// and nothing more; unstaking and reward claims are not available.
pub open spec fn spec_staking_process(program_id: Pubkey, a: Seq<AccountState>, data: Seq<u8>, now: i64) -> Result<Seq<EffectView>, ProgramError> {
    match spec_decode_staking_instruction(data) {
        None => Err(serr(StakeError::InValidInstruction)),
        Some(StakingInstruction::InitializePool { amount }) => if amount > u32::MAX {
            Err(ProgramError::InvalidInstructionData)
        } else {
            spec_initialize_pool(program_id, a, amount as u32, now)
        },
        Some(StakingInstruction::Stake { amount }) => match spec_process_stake(program_id, a, amount) {
            Ok(()) => Ok(Seq::empty()),
            Err(e) => Err(e),
        },
        Some(StakingInstruction::Unstake { .. }) => Err(ProgramError::InvalidInstructionData),
        Some(StakingInstruction::ClaimReward) => Err(ProgramError::InvalidInstructionData),
    }
}

impl Processor {
    /// Decodes the instruction and dispatches it; `now` is the clock's unix time.
    pub fn process(program_id: &Pubkey, accounts: &[AccountState], instruction_data: &[u8], now: i64) -> (r: Result<Vec<Effect>, ProgramError>)
        ensures
            outcome_matches(r, spec_staking_process(*program_id, accounts@, instruction_data@, now)),
    {
        let instruction = match StakingInstruction::try_from_slice(instruction_data) {
            Some(i) => i,
            None => return Err(ProgramError::from(StakeError::InValidInstruction)),
        };
        match instruction {
            StakingInstruction::InitializePool { amount } => {
                if amount > 0xffff_ffffu64 {
                    return Err(ProgramError::InvalidInstructionData);
                }
                initialize_pool(program_id, accounts, amount as u32, now)
            },
            StakingInstruction::Stake { amount } => {
                match process_stake(program_id, accounts, amount) {
                    Ok(()) => {
                        let effects: Vec<Effect> = Vec::new();
                        proof { assert(effects_view(effects) =~= Seq::<EffectView>::empty()); }
                        Ok(effects)
                    },
                    Err(e) => Err(e),
                }
            },
            StakingInstruction::Unstake { .. } => Err(ProgramError::InvalidInstructionData),
            StakingInstruction::ClaimReward => Err(ProgramError::InvalidInstructionData),
        }
    }
}

} // verus!
