//! Instructions of the pool program.

use vstd::prelude::*;
use crate::codec::{enc_u8, enc_u16, enc_u64, dec_u16, dec_u64, lemma_fixed_width_roundtrips, push_u8, push_u16,
    push_u64, read_u16, read_u64};

verus! {

#[derive(Debug, Clone, Copy, PartialEq, Eq)]
pub enum AmmInstruction {
    InitializePool { fee_bps: u16 },
    AddLiquidity { amount_a: u64, amount_b: u64, min_lp: u64 },
    RemoveLiquidity { lp_amount: u64, min_a: u64, min_b: u64 },
    SwapExactIn { amount_in: u64, min_out: u64 },
}

/// The instruction's bytes: a one-byte variant tag followed by its fields.
pub open spec fn spec_encode_amm_instruction(i: AmmInstruction) -> Seq<u8> {
    match i {
        AmmInstruction::InitializePool { fee_bps } => enc_u8(0) + enc_u16(fee_bps),
        AmmInstruction::AddLiquidity { amount_a, amount_b, min_lp } =>
            enc_u8(1) + enc_u64(amount_a) + enc_u64(amount_b) + enc_u64(min_lp),
        AmmInstruction::RemoveLiquidity { lp_amount, min_a, min_b } =>
            enc_u8(2) + enc_u64(lp_amount) + enc_u64(min_a) + enc_u64(min_b),
        AmmInstruction::SwapExactIn { amount_in, min_out } => enc_u8(3) + enc_u64(amount_in) + enc_u64(min_out),
    }
}

/// Reading instruction bytes, which must hold exactly one instruction.
pub open spec fn spec_decode_amm_instruction(b: Seq<u8>) -> Option<AmmInstruction> {
    if b.len() == 0 {
        None
    } else if b[0] == 0 && b.len() == 3 {
        Some(AmmInstruction::InitializePool { fee_bps: dec_u16(b.subrange(1, 3)) })
    } else if b[0] == 1 && b.len() == 25 {
        Some(AmmInstruction::AddLiquidity {
            amount_a: dec_u64(b.subrange(1, 9)),
            amount_b: dec_u64(b.subrange(9, 17)),
            min_lp: dec_u64(b.subrange(17, 25)),
        })
    } else if b[0] == 2 && b.len() == 25 {
        Some(AmmInstruction::RemoveLiquidity {
            lp_amount: dec_u64(b.subrange(1, 9)),
            min_a: dec_u64(b.subrange(9, 17)),
            min_b: dec_u64(b.subrange(17, 25)),
        })
    } else if b[0] == 3 && b.len() == 17 {
        Some(AmmInstruction::SwapExactIn { amount_in: dec_u64(b.subrange(1, 9)), min_out: dec_u64(b.subrange(9, 17)) })
    } else {
        None
    }
}

/// Reading an instruction's bytes gives the instruction back.
pub proof fn lemma_amm_instruction_roundtrip(i: AmmInstruction)
    ensures
        spec_decode_amm_instruction(spec_encode_amm_instruction(i)) == Some(i),
{
    lemma_fixed_width_roundtrips();
    let b = spec_encode_amm_instruction(i);
    match i {
        AmmInstruction::InitializePool { fee_bps } => {
            assert(b.subrange(1, 3) =~= enc_u16(fee_bps));
        },
        AmmInstruction::AddLiquidity { amount_a, amount_b, min_lp } => {
            assert(b.subrange(1, 9) =~= enc_u64(amount_a));
            assert(b.subrange(9, 17) =~= enc_u64(amount_b));
            assert(b.subrange(17, 25) =~= enc_u64(min_lp));
        },
        AmmInstruction::RemoveLiquidity { lp_amount, min_a, min_b } => {
            assert(b.subrange(1, 9) =~= enc_u64(lp_amount));
            assert(b.subrange(9, 17) =~= enc_u64(min_a));
            assert(b.subrange(17, 25) =~= enc_u64(min_b));
        },
        AmmInstruction::SwapExactIn { amount_in, min_out } => {
            assert(b.subrange(1, 9) =~= enc_u64(amount_in));
            assert(b.subrange(9, 17) =~= enc_u64(min_out));
        },
    }
}

/// Bytes that read as an instruction are exactly that instruction's bytes.
pub proof fn lemma_amm_instruction_canonical(b: Seq<u8>)
    requires
        spec_decode_amm_instruction(b) is Some,
    ensures
        spec_encode_amm_instruction(spec_decode_amm_instruction(b).unwrap()) == b,
{
    lemma_fixed_width_roundtrips();
    let i = spec_decode_amm_instruction(b).unwrap();
    if b[0] == 0 {
        assert(enc_u16(dec_u16(b.subrange(1, 3))) == b.subrange(1, 3));
    } else {
        assert(enc_u64(dec_u64(b.subrange(1, 9))) == b.subrange(1, 9));
        assert(enc_u64(dec_u64(b.subrange(9, 17))) == b.subrange(9, 17));
        if b[0] != 3 {
            assert(enc_u64(dec_u64(b.subrange(17, 25))) == b.subrange(17, 25));
        }
    }
    assert(spec_encode_amm_instruction(i) =~= b);
}

impl AmmInstruction {
    /// The instruction's bytes.
    pub fn to_bytes(&self) -> (r: Vec<u8>)
        ensures
            r@ == spec_encode_amm_instruction(*self),
    {
        let mut out: Vec<u8> = Vec::new();
        match self {
            AmmInstruction::InitializePool { fee_bps } => {
                push_u8(&mut out, 0);
                push_u16(&mut out, *fee_bps);
            },
            AmmInstruction::AddLiquidity { amount_a, amount_b, min_lp } => {
                push_u8(&mut out, 1);
                push_u64(&mut out, *amount_a);
                push_u64(&mut out, *amount_b);
                push_u64(&mut out, *min_lp);
            },
            AmmInstruction::RemoveLiquidity { lp_amount, min_a, min_b } => {
                push_u8(&mut out, 2);
                push_u64(&mut out, *lp_amount);
                push_u64(&mut out, *min_a);
                push_u64(&mut out, *min_b);
            },
            AmmInstruction::SwapExactIn { amount_in, min_out } => {
                push_u8(&mut out, 3);
                push_u64(&mut out, *amount_in);
                push_u64(&mut out, *min_out);
            },
        }
        assert(out@ =~= spec_encode_amm_instruction(*self));
        out
    }

    /// Reads an instruction from instruction data.
    pub fn try_from_slice(data: &[u8]) -> (r: Option<AmmInstruction>)
        ensures
            r == spec_decode_amm_instruction(data@),
    {
        let n = data.len();
        if n == 0 {
            return None;
        }
        let tag = data[0];
        if tag == 0 && n == 3 {
            Some(AmmInstruction::InitializePool { fee_bps: read_u16(data, 1) })
        } else if tag == 1 && n == 25 {
            Some(AmmInstruction::AddLiquidity { amount_a: read_u64(data, 1), amount_b: read_u64(data, 9), min_lp: read_u64(data, 17) })
        } else if tag == 2 && n == 25 {
            Some(AmmInstruction::RemoveLiquidity { lp_amount: read_u64(data, 1), min_a: read_u64(data, 9), min_b: read_u64(data, 17) })
        } else if tag == 3 && n == 17 {
            Some(AmmInstruction::SwapExactIn { amount_in: read_u64(data, 1), min_out: read_u64(data, 9) })
        } else {
            None
        }
    }
}

} // verus!
