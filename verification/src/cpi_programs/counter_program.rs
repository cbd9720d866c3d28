//! A counter that instructions increase or decrease.

use vstd::prelude::*;
use crate::account::{AccountState, Effect, EffectView, effects_view, outcome_matches, write_data};
use crate::codec::{enc_u8, enc_u32, dec_u32, lemma_fixed_width_roundtrips, push_u8, push_u32, read_u32};
use crate::error::ProgramError;
use crate::key::Pubkey;

verus! {

/// The counter's state.
#[derive(Debug, Clone, Copy, PartialEq, Eq)]
pub struct Counter {
    pub count: u32,
}

/// The counter program's instructions.
#[derive(Debug, Clone, Copy, PartialEq, Eq)]
pub enum Instruction {
    Increase { amount: u32 },
    Decrease { amount: u32 },
}

/// Reading a counter: exactly its count, little-endian.
pub open spec fn spec_decode_counter(b: Seq<u8>) -> Option<Counter> {
    if b.len() == 4 { Some(Counter { count: dec_u32(b) }) } else { None }
}

pub open spec fn spec_encode_counter_instruction(i: Instruction) -> Seq<u8> {
    match i {
        Instruction::Increase { amount } => enc_u8(0) + enc_u32(amount),
        Instruction::Decrease { amount } => enc_u8(1) + enc_u32(amount),
    }
}

/// Reading instruction bytes: a tag byte and the amount.
pub open spec fn spec_decode_counter_instruction(b: Seq<u8>) -> Option<Instruction> {
    if b.len() == 5 && b[0] == 0 {
        Some(Instruction::Increase { amount: dec_u32(b.subrange(1, 5)) })
    } else if b.len() == 5 && b[0] == 1 {
        Some(Instruction::Decrease { amount: dec_u32(b.subrange(1, 5)) })
    } else {
        None
    }
}

/// Reading an instruction's bytes gives it back, and a counter's bytes give
/// the counter back.
pub proof fn lemma_counter_roundtrips(i: Instruction, c: Counter)
    ensures
        spec_decode_counter_instruction(spec_encode_counter_instruction(i)) == Some(i),
        spec_decode_counter(enc_u32(c.count)) == Some(c),
{
    lemma_fixed_width_roundtrips();
    let b = spec_encode_counter_instruction(i);
    match i {
        Instruction::Increase { amount } => assert(b.subrange(1, 5) =~= enc_u32(amount)),
        Instruction::Decrease { amount } => assert(b.subrange(1, 5) =~= enc_u32(amount)),
    }
}

impl Instruction {
    /// The instruction's bytes.
    pub fn to_bytes(&self) -> (r: Vec<u8>)
        ensures
            r@ == spec_encode_counter_instruction(*self),
    {
        let mut out: Vec<u8> = Vec::new();
        match self {
            Instruction::Increase { amount } => {
                push_u8(&mut out, 0);
                push_u32(&mut out, *amount);
            },
            Instruction::Decrease { amount } => {
                push_u8(&mut out, 1);
                push_u32(&mut out, *amount);
            },
        }
        assert(out@ =~= spec_encode_counter_instruction(*self));
        out
    }

    /// Reads an instruction from instruction data.
    pub fn try_from_slice(data: &[u8]) -> (r: Option<Instruction>)
        ensures
            r == spec_decode_counter_instruction(data@),
    {
        if data.len() == 5 && data[0] == 0 {
            Some(Instruction::Increase { amount: read_u32(data, 1) })
        } else if data.len() == 5 && data[0] == 1 {
            Some(Instruction::Decrease { amount: read_u32(data, 1) })
        } else {
            None
        }
    }
}

impl Counter {
    /// The stored bytes of the counter.
    pub fn to_bytes(&self) -> (r: Vec<u8>)
        ensures
            r@ == enc_u32(self.count),
    {
        let mut out: Vec<u8> = Vec::new();
        push_u32(&mut out, self.count);
        assert(out@ =~= enc_u32(self.count));
        out
    }

    /// Reads a counter from account data.
    pub fn try_from_slice(data: &[u8]) -> (r: Option<Counter>)
        ensures
            r == spec_decode_counter(data@),
    {
        if data.len() != 4 {
            return None;
        }
        assert(data@.subrange(0, 4) =~= data@);
        Some(Counter { count: read_u32(data, 0) })
    }
}

/// The count after an instruction.
pub open spec fn counted(count: u32, i: Instruction) -> int {
    match i {
        Instruction::Increase { amount } => count + amount,
        Instruction::Decrease { amount } => count - amount,
    }
}

/// The update stays within the range of the count.
pub open spec fn count_defined(a: Seq<AccountState>, data: Seq<u8>) -> bool {
    match (spec_decode_counter_instruction(data), a.len() >= 1) {
        (Some(i), true) => match spec_decode_counter(a[0].data@) {
            Some(c) => 0 <= counted(c.count, i) <= u32::MAX,
            None => true,
        },
        _ => true,
    }
}

/// Whether the update stays within the range of the count.
pub fn count_is_defined(accounts: &[AccountState], instruction_data: &[u8]) -> (r: bool)
    ensures
        r == count_defined(accounts@, instruction_data@),
{
    if accounts.len() < 1 {
        return true;
    }
    let ix = match Instruction::try_from_slice(instruction_data) {
        Some(i) => i,
        None => return true,
    };
    match Counter::try_from_slice(accounts[0].data.as_slice()) {
        Some(c) => match ix {
            Instruction::Increase { amount } => c.count <= u32::MAX - amount,
            Instruction::Decrease { amount } => amount <= c.count,
        },
        None => true,
    }
}

/// What the program does. Accounts: the counter account. The new count
/// is stored back into it.
pub open spec fn spec_counter_process(a: Seq<AccountState>, data: Seq<u8>) -> Result<Seq<EffectView>, ProgramError> {
    match spec_decode_counter_instruction(data) {
        None => Err(ProgramError::BorshIoError),
        Some(i) => if a.len() < 1 {
            Err(ProgramError::NotEnoughAccountKeys)
        } else {
            match spec_decode_counter(a[0].data@) {
                None => Err(ProgramError::BorshIoError),
                Some(c) => Ok(seq![EffectView::WriteData { account: 0, bytes: enc_u32(counted(c.count, i) as u32) }]),
            }
        },
    }
}

/// Increases or decreases the stored count by the instruction's amount.
pub fn process_instruction(_program_id: &Pubkey, accounts: &[AccountState], instruction_data: &[u8]) -> (r: Result<Vec<Effect>, ProgramError>)
    requires
        count_defined(accounts@, instruction_data@),
    ensures
        outcome_matches(r, spec_counter_process(accounts@, instruction_data@)),
{
    let instruction = match Instruction::try_from_slice(instruction_data) {
        Some(i) => i,
        None => return Err(ProgramError::BorshIoError),
    };
    if accounts.len() < 1 {
        return Err(ProgramError::NotEnoughAccountKeys);
    }
    let account = &accounts[0];
    let mut data = match Counter::try_from_slice(account.data.as_slice()) {
        Some(c) => c,
        None => return Err(ProgramError::BorshIoError),
    };
    match instruction {
        Instruction::Increase { amount } => {
            data.count = data.count + amount;
        },
        Instruction::Decrease { amount } => {
            data.count = data.count - amount;
        },
    }
    let mut effects: Vec<Effect> = Vec::new();
    effects.push(write_data(0, data.to_bytes()));
    proof {
        assert(effects_view(effects) =~= spec_counter_process(accounts@, instruction_data@).unwrap());
    }
    Ok(effects)
}

/// Decreasing by an amount undoes increasing by it.
pub proof fn lemma_decrease_undoes_increase(count: u32, amount: u32)
    requires
        count + amount <= u32::MAX,
    ensures
        counted(counted(count, Instruction::Increase { amount }) as u32, Instruction::Decrease { amount }) == count,
{
}

} // verus!
