//! Instructions of the lending program.

use vstd::prelude::*;
use crate::codec::{enc_u8, enc_u16, enc_u64, enc_key, dec_u16, dec_u64, lemma_fixed_width_roundtrips,
    lemma_key_from_bytes, push_u8, push_u16, push_u64, push_key, read_u16, read_u64, read_key};
use crate::key::{Pubkey, seq_to_key, lemma_seq_to_key};

verus! {

/// The parameters of a new reserve.
#[derive(Debug, Clone, Copy, PartialEq, Eq)]
pub struct ReserveParams {
    pub base_rate_per_year_bps: u16,
    pub slope1_bps: u16,
    pub slope2_bps: u16,
    pub kink_bps: u16,
    pub ltv_bps: u16,
    pub liquidation_threshold_bps: u16,
    pub liquidation_bonus_bps: u16,
    pub decimals: u8,
}

pub open spec fn spec_encode_reserve_params(p: ReserveParams) -> Seq<u8> {
    enc_u16(p.base_rate_per_year_bps) + enc_u16(p.slope1_bps) + enc_u16(p.slope2_bps) + enc_u16(p.kink_bps)
        + enc_u16(p.ltv_bps) + enc_u16(p.liquidation_threshold_bps) + enc_u16(p.liquidation_bonus_bps)
        + enc_u8(p.decimals)
}

pub open spec fn spec_decode_reserve_params(b: Seq<u8>) -> Option<ReserveParams> {
    if b.len() != 15 {
        None
    } else {
        Some(ReserveParams {
            base_rate_per_year_bps: dec_u16(b.subrange(0, 2)),
            slope1_bps: dec_u16(b.subrange(2, 4)),
            slope2_bps: dec_u16(b.subrange(4, 6)),
            kink_bps: dec_u16(b.subrange(6, 8)),
            ltv_bps: dec_u16(b.subrange(8, 10)),
            liquidation_threshold_bps: dec_u16(b.subrange(10, 12)),
            liquidation_bonus_bps: dec_u16(b.subrange(12, 14)),
            decimals: b[14],
        })
    }
}

/// Reading back encoded parameters gives the same parameters, and bytes
/// that read as parameters are exactly their encoding.
pub proof fn lemma_reserve_params_roundtrip(p: ReserveParams, b: Seq<u8>)
    ensures
        spec_decode_reserve_params(spec_encode_reserve_params(p)) == Some(p),
        spec_decode_reserve_params(b) matches Some(q) ==> spec_encode_reserve_params(q) == b,
{
    lemma_fixed_width_roundtrips();
    let e = spec_encode_reserve_params(p);
    assert(e.subrange(0, 2) =~= enc_u16(p.base_rate_per_year_bps));
    assert(e.subrange(2, 4) =~= enc_u16(p.slope1_bps));
    assert(e.subrange(4, 6) =~= enc_u16(p.slope2_bps));
    assert(e.subrange(6, 8) =~= enc_u16(p.kink_bps));
    assert(e.subrange(8, 10) =~= enc_u16(p.ltv_bps));
    assert(e.subrange(10, 12) =~= enc_u16(p.liquidation_threshold_bps));
    assert(e.subrange(12, 14) =~= enc_u16(p.liquidation_bonus_bps));
    if let Some(q) = spec_decode_reserve_params(b) {
        assert(enc_u16(dec_u16(b.subrange(0, 2))) == b.subrange(0, 2));
        assert(enc_u16(dec_u16(b.subrange(2, 4))) == b.subrange(2, 4));
        assert(enc_u16(dec_u16(b.subrange(4, 6))) == b.subrange(4, 6));
        assert(enc_u16(dec_u16(b.subrange(6, 8))) == b.subrange(6, 8));
        assert(enc_u16(dec_u16(b.subrange(8, 10))) == b.subrange(8, 10));
        assert(enc_u16(dec_u16(b.subrange(10, 12))) == b.subrange(10, 12));
        assert(enc_u16(dec_u16(b.subrange(12, 14))) == b.subrange(12, 14));
        assert(spec_encode_reserve_params(q) =~= b);
    }
}

impl ReserveParams {
    pub fn to_bytes(&self) -> (r: Vec<u8>)
        ensures
            r@ == spec_encode_reserve_params(*self),
    {
        let mut out: Vec<u8> = Vec::new();
        push_u16(&mut out, self.base_rate_per_year_bps);
        push_u16(&mut out, self.slope1_bps);
        push_u16(&mut out, self.slope2_bps);
        push_u16(&mut out, self.kink_bps);
        push_u16(&mut out, self.ltv_bps);
        push_u16(&mut out, self.liquidation_threshold_bps);
        push_u16(&mut out, self.liquidation_bonus_bps);
        push_u8(&mut out, self.decimals);
        assert(out@ =~= spec_encode_reserve_params(*self));
        out
    }

    pub fn try_from_slice(data: &[u8]) -> (r: Option<ReserveParams>)
        ensures
            r == spec_decode_reserve_params(data@),
    {
        if data.len() != 15 {
            return None;
        }
        Some(ReserveParams {
            base_rate_per_year_bps: read_u16(data, 0),
            slope1_bps: read_u16(data, 2),
            slope2_bps: read_u16(data, 4),
            kink_bps: read_u16(data, 6),
            ltv_bps: read_u16(data, 8),
            liquidation_threshold_bps: read_u16(data, 10),
            liquidation_bonus_bps: read_u16(data, 12),
            decimals: data[14],
        })
    }
}

#[derive(Debug, Clone, Copy, PartialEq, Eq)]
pub enum LendInstruction {
    InitMarket { oracle_program_id: Pubkey },
    Deposit { amount: u64 },
    Withdraw { amount: u64, max_slippage_bps: u16 },
    Borrow { amount: u64 },
    Repay { amount: u64 },
    Liquidate { repay_amount: u64 },
    Pause {},
    Unpause {},
}

pub open spec fn spec_encode_lend_instruction(i: LendInstruction) -> Seq<u8> {
    match i {
        LendInstruction::InitMarket { oracle_program_id } => enc_u8(0) + enc_key(oracle_program_id),
        LendInstruction::Deposit { amount } => enc_u8(1) + enc_u64(amount),
        LendInstruction::Withdraw { amount, max_slippage_bps } => enc_u8(2) + enc_u64(amount) + enc_u16(max_slippage_bps),
        LendInstruction::Borrow { amount } => enc_u8(3) + enc_u64(amount),
        LendInstruction::Repay { amount } => enc_u8(4) + enc_u64(amount),
        LendInstruction::Liquidate { repay_amount } => enc_u8(5) + enc_u64(repay_amount),
        LendInstruction::Pause {} => enc_u8(6),
        LendInstruction::Unpause {} => enc_u8(7),
    }
}

pub open spec fn spec_decode_lend_instruction(b: Seq<u8>) -> Option<LendInstruction> {
    if b.len() == 0 {
        None
    } else if b[0] == 0 && b.len() == 33 {
        Some(LendInstruction::InitMarket { oracle_program_id: seq_to_key(b.subrange(1, 33)) })
    } else if b[0] == 2 && b.len() == 11 {
        Some(LendInstruction::Withdraw { amount: dec_u64(b.subrange(1, 9)), max_slippage_bps: dec_u16(b.subrange(9, 11)) })
    } else if (b[0] == 1 || b[0] == 3 || b[0] == 4 || b[0] == 5) && b.len() == 9 {
        let amount = dec_u64(b.subrange(1, 9));
        Some(if b[0] == 1 {
            LendInstruction::Deposit { amount }
        } else if b[0] == 3 {
            LendInstruction::Borrow { amount }
        } else if b[0] == 4 {
            LendInstruction::Repay { amount }
        } else {
            LendInstruction::Liquidate { repay_amount: amount }
        })
    } else if b[0] == 6 && b.len() == 1 {
        Some(LendInstruction::Pause {})
    } else if b[0] == 7 && b.len() == 1 {
        Some(LendInstruction::Unpause {})
    } else {
        None
    }
}

/// Reading back an encoded instruction gives the same instruction, and
/// bytes that read as an instruction are exactly its encoding.
pub proof fn lemma_lend_instruction_roundtrip(i: LendInstruction, b: Seq<u8>)
    ensures
        spec_decode_lend_instruction(spec_encode_lend_instruction(i)) == Some(i),
        spec_decode_lend_instruction(b) matches Some(j) ==> spec_encode_lend_instruction(j) == b,
{
    lemma_fixed_width_roundtrips();
    let e = spec_encode_lend_instruction(i);
    match i {
        LendInstruction::InitMarket { oracle_program_id } => {
            assert(e.subrange(1, 33) =~= oracle_program_id@);
            lemma_key_from_bytes(oracle_program_id);
        },
        LendInstruction::Withdraw { amount, max_slippage_bps } => {
            assert(e.subrange(1, 9) =~= enc_u64(amount));
            assert(e.subrange(9, 11) =~= enc_u16(max_slippage_bps));
        },
        LendInstruction::Deposit { amount } => { assert(e.subrange(1, 9) =~= enc_u64(amount)); },
        LendInstruction::Borrow { amount } => { assert(e.subrange(1, 9) =~= enc_u64(amount)); },
        LendInstruction::Repay { amount } => { assert(e.subrange(1, 9) =~= enc_u64(amount)); },
        LendInstruction::Liquidate { repay_amount } => { assert(e.subrange(1, 9) =~= enc_u64(repay_amount)); },
        _ => {},
    }
    if let Some(j) = spec_decode_lend_instruction(b) {
        if b[0] == 0 {
            lemma_seq_to_key(b.subrange(1, 33));
        } else if b[0] == 2 {
            assert(enc_u64(dec_u64(b.subrange(1, 9))) == b.subrange(1, 9));
            assert(enc_u16(dec_u16(b.subrange(9, 11))) == b.subrange(9, 11));
        } else if b.len() == 9 {
            assert(enc_u64(dec_u64(b.subrange(1, 9))) == b.subrange(1, 9));
        }
        assert(spec_encode_lend_instruction(j) =~= b);
    }
}

impl LendInstruction {
    pub fn to_bytes(&self) -> (r: Vec<u8>)
        ensures
            r@ == spec_encode_lend_instruction(*self),
    {
        let mut out: Vec<u8> = Vec::new();
        match self {
            LendInstruction::InitMarket { oracle_program_id } => {
                push_u8(&mut out, 0);
                push_key(&mut out, oracle_program_id);
            },
            LendInstruction::Deposit { amount } => {
                push_u8(&mut out, 1);
                push_u64(&mut out, *amount);
            },
            LendInstruction::Withdraw { amount, max_slippage_bps } => {
                push_u8(&mut out, 2);
                push_u64(&mut out, *amount);
                push_u16(&mut out, *max_slippage_bps);
            },
            LendInstruction::Borrow { amount } => {
                push_u8(&mut out, 3);
                push_u64(&mut out, *amount);
            },
            LendInstruction::Repay { amount } => {
                push_u8(&mut out, 4);
                push_u64(&mut out, *amount);
            },
            LendInstruction::Liquidate { repay_amount } => {
                push_u8(&mut out, 5);
                push_u64(&mut out, *repay_amount);
            },
            LendInstruction::Pause {} => {
                push_u8(&mut out, 6);
            },
            LendInstruction::Unpause {} => {
                push_u8(&mut out, 7);
            },
        }
        assert(out@ =~= spec_encode_lend_instruction(*self));
        out
    }

    pub fn try_from_slice(data: &[u8]) -> (r: Option<LendInstruction>)
        ensures
            r == spec_decode_lend_instruction(data@),
    {
        let n = data.len();
        if n == 0 {
            return None;
        }
        let tag = data[0];
        if tag == 0 && n == 33 {
            Some(LendInstruction::InitMarket { oracle_program_id: read_key(data, 1) })
        } else if tag == 2 && n == 11 {
            Some(LendInstruction::Withdraw { amount: read_u64(data, 1), max_slippage_bps: read_u16(data, 9) })
        } else if (tag == 1 || tag == 3 || tag == 4 || tag == 5) && n == 9 {
            let amount = read_u64(data, 1);
            Some(if tag == 1 {
                LendInstruction::Deposit { amount }
            } else if tag == 3 {
                LendInstruction::Borrow { amount }
            } else if tag == 4 {
                LendInstruction::Repay { amount }
            } else {
                LendInstruction::Liquidate { repay_amount: amount }
            })
        } else if tag == 6 && n == 1 {
            Some(LendInstruction::Pause {})
        } else if tag == 7 && n == 1 {
            Some(LendInstruction::Unpause {})
        } else {
            None
        }
    }
}

} // verus!
