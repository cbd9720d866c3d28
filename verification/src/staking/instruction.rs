//! Instructions of the staking program.

use vstd::prelude::*;
use crate::codec::{enc_u8, enc_u64, dec_u64, lemma_fixed_width_roundtrips, push_u8, push_u64, read_u64};

verus! {

#[derive(Debug, Clone, Copy, PartialEq, Eq)]
pub enum StakingInstruction {
    InitializePool { amount: u64 },
    Stake { amount: u64 },
    Unstake { amount: u64 },
    ClaimReward,
}

/// The instruction's bytes: a one-byte variant tag followed by the amount,
/// little-endian, where the variant has one.
pub open spec fn spec_encode_staking_instruction(i: StakingInstruction) -> Seq<u8> {
    match i {
        StakingInstruction::InitializePool { amount } => enc_u8(0) + enc_u64(amount),
        StakingInstruction::Stake { amount } => enc_u8(1) + enc_u64(amount),
        StakingInstruction::Unstake { amount } => enc_u8(2) + enc_u64(amount),
        StakingInstruction::ClaimReward => enc_u8(3),
    }
}

/// Reading instruction bytes, which must hold exactly one instruction.
pub open spec fn spec_decode_staking_instruction(b: Seq<u8>) -> Option<StakingInstruction> {
    if b.len() == 9 && b[0] == 0 {
        Some(StakingInstruction::InitializePool { amount: dec_u64(b.subrange(1, 9)) })
    } else if b.len() == 9 && b[0] == 1 {
        Some(StakingInstruction::Stake { amount: dec_u64(b.subrange(1, 9)) })
    } else if b.len() == 9 && b[0] == 2 {
        Some(StakingInstruction::Unstake { amount: dec_u64(b.subrange(1, 9)) })
    } else if b.len() == 1 && b[0] == 3 {
        Some(StakingInstruction::ClaimReward)
    } else {
        None
    }
}

/// Reading an instruction's bytes gives the instruction back.
pub proof fn lemma_staking_instruction_roundtrip(i: StakingInstruction)
    ensures
        spec_decode_staking_instruction(spec_encode_staking_instruction(i)) == Some(i),
{
    lemma_fixed_width_roundtrips();
    let b = spec_encode_staking_instruction(i);
    match i {
        StakingInstruction::InitializePool { amount } => assert(b.subrange(1, 9) =~= enc_u64(amount)),
        StakingInstruction::Stake { amount } => assert(b.subrange(1, 9) =~= enc_u64(amount)),
        StakingInstruction::Unstake { amount } => assert(b.subrange(1, 9) =~= enc_u64(amount)),
        StakingInstruction::ClaimReward => {},
    }
}

/// Bytes that read as an instruction are exactly that instruction's bytes.
pub proof fn lemma_staking_instruction_canonical(b: Seq<u8>)
    requires
        spec_decode_staking_instruction(b) is Some,
    ensures
        spec_encode_staking_instruction(spec_decode_staking_instruction(b).unwrap()) == b,
{
    lemma_fixed_width_roundtrips();
    if b.len() == 9 {
        assert(enc_u64(dec_u64(b.subrange(1, 9))) == b.subrange(1, 9));
    }
    assert(spec_encode_staking_instruction(spec_decode_staking_instruction(b).unwrap()) =~= b);
}

impl StakingInstruction {
    /// The instruction's bytes.
    pub fn to_bytes(&self) -> (r: Vec<u8>)
        ensures
            r@ == spec_encode_staking_instruction(*self),
    {
        let mut out: Vec<u8> = Vec::new();
        match self {
            StakingInstruction::InitializePool { amount } => {
                push_u8(&mut out, 0);
                push_u64(&mut out, *amount);
            },
            StakingInstruction::Stake { amount } => {
                push_u8(&mut out, 1);
                push_u64(&mut out, *amount);
            },
            StakingInstruction::Unstake { amount } => {
                push_u8(&mut out, 2);
                push_u64(&mut out, *amount);
            },
            StakingInstruction::ClaimReward => {
                push_u8(&mut out, 3);
            },
        }
        assert(out@ =~= spec_encode_staking_instruction(*self));
        out
    }

    /// Reads an instruction from instruction data.
    pub fn try_from_slice(data: &[u8]) -> (r: Option<StakingInstruction>)
        ensures
            r == spec_decode_staking_instruction(data@),
    {
        let n = data.len();
        if n == 9 && data[0] == 0 {
            Some(StakingInstruction::InitializePool { amount: read_u64(data, 1) })
        } else if n == 9 && data[0] == 1 {
            Some(StakingInstruction::Stake { amount: read_u64(data, 1) })
        } else if n == 9 && data[0] == 2 {
            Some(StakingInstruction::Unstake { amount: read_u64(data, 1) })
        } else if n == 1 && data[0] == 3 {
            Some(StakingInstruction::ClaimReward)
        } else {
            None
        }
    }
}

} // verus!
