//! The pool's stored state.

use vstd::prelude::*;
use crate::codec::{enc_key, enc_u8, enc_u16, enc_u64, enc_bool, dec_bool, dec_u16, dec_u64,
    lemma_fixed_width_roundtrips, lemma_key_from_bytes, push_key, push_u8, push_u16, push_u64, push_bool,
    read_bool, read_key, read_u16, read_u64};
use crate::key::{Pubkey, seq_to_key, lemma_seq_to_key};

verus! {

#[derive(Debug, Clone, Copy, PartialEq, Eq)]
pub struct Pool {
    pub is_initialized: bool,
    pub authority_bump: u8,
    pub token_a_mint: Pubkey,
    pub token_b_mint: Pubkey,
    /// Token account of token A, owned by the pool's authority address.
    pub vault_a: Pubkey,
    /// Token account of token B, owned by the pool's authority address.
    pub vault_b: Pubkey,
    /// Mint of the LP token, whose mint authority is the authority address.
    pub lp_mint: Pubkey,
    pub fee_bps: u16,
    pub total_lp_supply: u64,
}

impl Pool {
    /// Size in bytes of the stored pool.
    pub const LEN: usize = 172;
}

/// The stored layout of a pool.
pub open spec fn spec_encode_pool(p: Pool) -> Seq<u8> {
    enc_bool(p.is_initialized) + enc_u8(p.authority_bump) + enc_key(p.token_a_mint) + enc_key(p.token_b_mint)
        + enc_key(p.vault_a) + enc_key(p.vault_b) + enc_key(p.lp_mint) + enc_u16(p.fee_bps)
        + enc_u64(p.total_lp_supply)
}

/// Reading stored bytes back: exactly 172 bytes with a valid flag byte.
pub open spec fn spec_decode_pool(b: Seq<u8>) -> Option<Pool> {
    if b.len() != 172 {
        None
    } else {
        match dec_bool(b[0]) {
            None => None,
            Some(is_initialized) => Some(Pool {
                is_initialized,
                authority_bump: b[1],
                token_a_mint: seq_to_key(b.subrange(2, 34)),
                token_b_mint: seq_to_key(b.subrange(34, 66)),
                vault_a: seq_to_key(b.subrange(66, 98)),
                vault_b: seq_to_key(b.subrange(98, 130)),
                lp_mint: seq_to_key(b.subrange(130, 162)),
                fee_bps: dec_u16(b.subrange(162, 164)),
                total_lp_supply: dec_u64(b.subrange(164, 172)),
            }),
        }
    }
}

/// Reading back a stored pool gives the same pool.
pub proof fn lemma_pool_roundtrip(p: Pool)
    ensures
        spec_decode_pool(spec_encode_pool(p)) == Some(p),
{
    lemma_fixed_width_roundtrips();
    let b = spec_encode_pool(p);
    assert(b.subrange(2, 34) =~= p.token_a_mint@);
    assert(b.subrange(34, 66) =~= p.token_b_mint@);
    assert(b.subrange(66, 98) =~= p.vault_a@);
    assert(b.subrange(98, 130) =~= p.vault_b@);
    assert(b.subrange(130, 162) =~= p.lp_mint@);
    assert(b.subrange(162, 164) =~= enc_u16(p.fee_bps));
    assert(b.subrange(164, 172) =~= enc_u64(p.total_lp_supply));
    lemma_key_from_bytes(p.token_a_mint);
    lemma_key_from_bytes(p.token_b_mint);
    lemma_key_from_bytes(p.vault_a);
    lemma_key_from_bytes(p.vault_b);
    lemma_key_from_bytes(p.lp_mint);
}

/// Bytes that read as a pool are exactly that pool's layout.
pub proof fn lemma_pool_canonical(b: Seq<u8>)
    requires
        spec_decode_pool(b) is Some,
    ensures
        spec_encode_pool(spec_decode_pool(b).unwrap()) == b,
{
    lemma_fixed_width_roundtrips();
    let p = spec_decode_pool(b).unwrap();
    lemma_seq_to_key(b.subrange(2, 34));
    lemma_seq_to_key(b.subrange(34, 66));
    lemma_seq_to_key(b.subrange(66, 98));
    lemma_seq_to_key(b.subrange(98, 130));
    lemma_seq_to_key(b.subrange(130, 162));
    assert(enc_u16(p.fee_bps) == b.subrange(162, 164));
    assert(enc_u64(p.total_lp_supply) == b.subrange(164, 172));
    assert(spec_encode_pool(p) =~= b);
}

impl Pool {
    /// The stored bytes of the pool.
    pub fn to_bytes(&self) -> (r: Vec<u8>)
        ensures
            r@ == spec_encode_pool(*self),
    {
        let mut out: Vec<u8> = Vec::new();
        push_bool(&mut out, self.is_initialized);
        push_u8(&mut out, self.authority_bump);
        push_key(&mut out, &self.token_a_mint);
        push_key(&mut out, &self.token_b_mint);
        push_key(&mut out, &self.vault_a);
        push_key(&mut out, &self.vault_b);
        push_key(&mut out, &self.lp_mint);
        push_u16(&mut out, self.fee_bps);
        push_u64(&mut out, self.total_lp_supply);
        assert(out@ =~= spec_encode_pool(*self));
        out
    }

    /// Reads a pool from account data, which must hold exactly one.
    pub fn try_from_slice(data: &[u8]) -> (r: Option<Pool>)
        ensures
            r == spec_decode_pool(data@),
    {
        if data.len() != 172 {
            return None;
        }
        let is_initialized = match read_bool(data, 0) {
            Some(b) => b,
            None => return None,
        };
        Some(Pool {
            is_initialized,
            authority_bump: data[1],
            token_a_mint: read_key(data, 2),
            token_b_mint: read_key(data, 34),
            vault_a: read_key(data, 66),
            vault_b: read_key(data, 98),
            lp_mint: read_key(data, 130),
            fee_bps: read_u16(data, 162),
            total_lp_supply: read_u64(data, 164),
        })
    }
}

} // verus!
