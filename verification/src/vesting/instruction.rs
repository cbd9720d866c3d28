//! Instructions of the vesting program.

use vstd::prelude::*;
use crate::codec::{enc_u8, enc_u64, enc_i64, enc_bool, dec_bool, dec_u64, dec_i64, lemma_fixed_width_roundtrips,
    push_u8, push_u64, push_i64, push_bool, read_bool, read_u64, read_i64};

verus! {

#[derive(Debug, Clone, Copy, PartialEq, Eq)]
pub enum VestingInstruction {
    /// Sets up a schedule and funds its escrow.
    Initialize { total_amount: u64, start_time: i64, cliff_time: i64, end_time: i64, revocable: bool },
    /// Pays the beneficiary what has vested and is not yet claimed.
    Claim {},
    /// Revokes a schedule (admin only).
    CloseAndRevoke {},
}

/// The instruction's bytes: a one-byte variant tag followed by its fields.
pub open spec fn spec_encode_vesting_instruction(i: VestingInstruction) -> Seq<u8> {
    match i {
        VestingInstruction::Initialize { total_amount, start_time, cliff_time, end_time, revocable } =>
            enc_u8(0) + enc_u64(total_amount) + enc_i64(start_time) + enc_i64(cliff_time) + enc_i64(end_time)
                + enc_bool(revocable),
        VestingInstruction::Claim {} => enc_u8(1),
        VestingInstruction::CloseAndRevoke {} => enc_u8(2),
    }
}

/// Reading instruction bytes, which must hold exactly one instruction.
pub open spec fn spec_decode_vesting_instruction(b: Seq<u8>) -> Option<VestingInstruction> {
    if b.len() == 0 {
        None
    } else if b[0] == 0 {
        if b.len() != 34 {
            None
        } else {
            match dec_bool(b[33]) {
                None => None,
                Some(revocable) => Some(VestingInstruction::Initialize {
                    total_amount: dec_u64(b.subrange(1, 9)),
                    start_time: dec_i64(b.subrange(9, 17)),
                    cliff_time: dec_i64(b.subrange(17, 25)),
                    end_time: dec_i64(b.subrange(25, 33)),
                    revocable,
                }),
            }
        }
    } else if b[0] == 1 && b.len() == 1 {
        Some(VestingInstruction::Claim {})
    } else if b[0] == 2 && b.len() == 1 {
        Some(VestingInstruction::CloseAndRevoke {})
    } else {
        None
    }
}

/// Reading an instruction's bytes gives the instruction back.
pub proof fn lemma_vesting_instruction_roundtrip(i: VestingInstruction)
    ensures
        spec_decode_vesting_instruction(spec_encode_vesting_instruction(i)) == Some(i),
{
    lemma_fixed_width_roundtrips();
    let b = spec_encode_vesting_instruction(i);
    if let VestingInstruction::Initialize { total_amount, start_time, cliff_time, end_time, revocable } = i {
        assert(b.subrange(1, 9) =~= enc_u64(total_amount));
        assert(b.subrange(9, 17) =~= enc_i64(start_time));
        assert(b.subrange(17, 25) =~= enc_i64(cliff_time));
        assert(b.subrange(25, 33) =~= enc_i64(end_time));
    }
}

/// Bytes that read as an instruction are exactly that instruction's bytes.
pub proof fn lemma_vesting_instruction_canonical(b: Seq<u8>)
    requires
        spec_decode_vesting_instruction(b) is Some,
    ensures
        spec_encode_vesting_instruction(spec_decode_vesting_instruction(b).unwrap()) == b,
{
    lemma_fixed_width_roundtrips();
    let i = spec_decode_vesting_instruction(b).unwrap();
    if b[0] == 0 {
        assert(enc_u64(dec_u64(b.subrange(1, 9))) == b.subrange(1, 9));
        assert(enc_i64(dec_i64(b.subrange(9, 17))) == b.subrange(9, 17));
        assert(enc_i64(dec_i64(b.subrange(17, 25))) == b.subrange(17, 25));
        assert(enc_i64(dec_i64(b.subrange(25, 33))) == b.subrange(25, 33));
    }
    assert(spec_encode_vesting_instruction(i) =~= b);
}

impl VestingInstruction {
    /// The instruction's bytes.
    pub fn to_bytes(&self) -> (r: Vec<u8>)
        ensures
            r@ == spec_encode_vesting_instruction(*self),
    {
        let mut out: Vec<u8> = Vec::new();
        match self {
            VestingInstruction::Initialize { total_amount, start_time, cliff_time, end_time, revocable } => {
                push_u8(&mut out, 0);
                push_u64(&mut out, *total_amount);
                push_i64(&mut out, *start_time);
                push_i64(&mut out, *cliff_time);
                push_i64(&mut out, *end_time);
                push_bool(&mut out, *revocable);
            },
            VestingInstruction::Claim {} => {
                push_u8(&mut out, 1);
            },
            VestingInstruction::CloseAndRevoke {} => {
                push_u8(&mut out, 2);
            },
        }
        assert(out@ =~= spec_encode_vesting_instruction(*self));
        out
    }

    /// Reads an instruction from instruction data.
    pub fn try_from_slice(data: &[u8]) -> (r: Option<VestingInstruction>)
        ensures
            r == spec_decode_vesting_instruction(data@),
    {
        let n = data.len();
        if n == 0 {
            return None;
        }
        let tag = data[0];
        if tag == 0 {
            if n != 34 {
                return None;
            }
            match read_bool(data, 33) {
                None => None,
                Some(revocable) => Some(VestingInstruction::Initialize {
                    total_amount: read_u64(data, 1),
                    start_time: read_i64(data, 9),
                    cliff_time: read_i64(data, 17),
                    end_time: read_i64(data, 25),
                    revocable,
                }),
            }
        } else if tag == 1 && n == 1 {
            Some(VestingInstruction::Claim {})
        } else if tag == 2 && n == 1 {
            Some(VestingInstruction::CloseAndRevoke {})
        } else {
            None
        }
    }
}

} // verus!
