//! State of the staking program: the pool and a user's stake.

use vstd::prelude::*;
use crate::key::{Pubkey, seq_to_key, lemma_seq_to_key};
use crate::codec::{enc_key, enc_u32, enc_u64, enc_i64, dec_u32, dec_u64, dec_i64, lemma_fixed_width_roundtrips,
    lemma_key_from_bytes, push_key, push_u32, push_u64, push_i64, read_key, read_u32, read_u64, read_i64};

verus! {

/// A staking pool: who administers it, the staked and reward mints, the
/// vaults holding them, the reward rate and the staked total.
#[derive(Debug, Clone, Copy, PartialEq, Eq)]
pub struct Pool {
    pub authority: Pubkey,
    pub staking_mint: Pubkey,
    pub reward_mint: Pubkey,
    pub vault: Pubkey,
    pub vault_staked_tokens: Pubkey,
    pub vault_reward_token: Pubkey,
    pub reward_rate: u32,
    pub total_staked: u64,
    pub last_update_time: i64,
}

impl Pool {
    /// Stored size of a pool in bytes.
    pub const LEN: usize = 212;
}

pub open spec fn spec_encode_pool(p: Pool) -> Seq<u8> {
    enc_key(p.authority) + enc_key(p.staking_mint) + enc_key(p.reward_mint) + enc_key(p.vault)
        + enc_key(p.vault_staked_tokens) + enc_key(p.vault_reward_token) + enc_u32(p.reward_rate)
        + enc_u64(p.total_staked) + enc_i64(p.last_update_time)
}

/// Reading stored bytes back: exactly `Pool::LEN` bytes.
pub open spec fn spec_decode_pool(b: Seq<u8>) -> Option<Pool> {
    if b.len() != 212 {
        None
    } else {
        Some(Pool {
            authority: seq_to_key(b.subrange(0, 32)),
            staking_mint: seq_to_key(b.subrange(32, 64)),
            reward_mint: seq_to_key(b.subrange(64, 96)),
            vault: seq_to_key(b.subrange(96, 128)),
            vault_staked_tokens: seq_to_key(b.subrange(128, 160)),
            vault_reward_token: seq_to_key(b.subrange(160, 192)),
            reward_rate: dec_u32(b.subrange(192, 196)),
            total_staked: dec_u64(b.subrange(196, 204)),
            last_update_time: dec_i64(b.subrange(204, 212)),
        })
    }
}

/// Reading back a stored pool gives the same pool, and bytes that read as
/// a pool are exactly its layout.
pub proof fn lemma_pool_roundtrip(p: Pool, b: Seq<u8>)
    ensures
        spec_decode_pool(spec_encode_pool(p)) == Some(p),
        spec_decode_pool(b) matches Some(q) ==> spec_encode_pool(q) == b,
{
    lemma_fixed_width_roundtrips();
    let e = spec_encode_pool(p);
    assert(e.subrange(0, 32) =~= p.authority@);
    assert(e.subrange(32, 64) =~= p.staking_mint@);
    assert(e.subrange(64, 96) =~= p.reward_mint@);
    assert(e.subrange(96, 128) =~= p.vault@);
    assert(e.subrange(128, 160) =~= p.vault_staked_tokens@);
    assert(e.subrange(160, 192) =~= p.vault_reward_token@);
    assert(e.subrange(192, 196) =~= enc_u32(p.reward_rate));
    assert(e.subrange(196, 204) =~= enc_u64(p.total_staked));
    assert(e.subrange(204, 212) =~= enc_i64(p.last_update_time));
    lemma_key_from_bytes(p.authority);
    lemma_key_from_bytes(p.staking_mint);
    lemma_key_from_bytes(p.reward_mint);
    lemma_key_from_bytes(p.vault);
    lemma_key_from_bytes(p.vault_staked_tokens);
    lemma_key_from_bytes(p.vault_reward_token);
    if let Some(q) = spec_decode_pool(b) {
        lemma_seq_to_key(b.subrange(0, 32));
        lemma_seq_to_key(b.subrange(32, 64));
        lemma_seq_to_key(b.subrange(64, 96));
        lemma_seq_to_key(b.subrange(96, 128));
        lemma_seq_to_key(b.subrange(128, 160));
        lemma_seq_to_key(b.subrange(160, 192));
        assert(enc_u32(q.reward_rate) == b.subrange(192, 196));
        assert(enc_u64(q.total_staked) == b.subrange(196, 204));
        assert(enc_i64(q.last_update_time) == b.subrange(204, 212));
        assert(spec_encode_pool(q) =~= b);
    }
}

impl Pool {
    /// The stored bytes of the pool.
    pub fn to_bytes(&self) -> (r: Vec<u8>)
        ensures
            r@ == spec_encode_pool(*self),
    {
        let mut out: Vec<u8> = Vec::new();
        push_key(&mut out, &self.authority);
        push_key(&mut out, &self.staking_mint);
        push_key(&mut out, &self.reward_mint);
        push_key(&mut out, &self.vault);
        push_key(&mut out, &self.vault_staked_tokens);
        push_key(&mut out, &self.vault_reward_token);
        push_u32(&mut out, self.reward_rate);
        push_u64(&mut out, self.total_staked);
        push_i64(&mut out, self.last_update_time);
        assert(out@ =~= spec_encode_pool(*self));
        out
    }

    /// Reads a pool from account data, which must hold exactly one.
    pub fn try_from_slice(data: &[u8]) -> (r: Option<Pool>)
        ensures
            r == spec_decode_pool(data@),
    {
        if data.len() != 212 {
            return None;
        }
        Some(Pool {
            authority: read_key(data, 0),
            staking_mint: read_key(data, 32),
            reward_mint: read_key(data, 64),
            vault: read_key(data, 96),
            vault_staked_tokens: read_key(data, 128),
            vault_reward_token: read_key(data, 160),
            reward_rate: read_u32(data, 192),
            total_staked: read_u64(data, 196),
            last_update_time: read_i64(data, 204),
        })
    }
}

/// A user's stake in a pool.
#[derive(Debug, Clone, Copy, PartialEq, Eq)]
pub struct UserStake {
    pub owner: Pubkey,
    pub staked_amount: u64,
    pub reward_debt: u64,
    /// When the user last staked.
    pub last_stake_time: i64,
}

impl UserStake {
    /// Stored size of a user's stake in bytes.
    pub const LEN: usize = 56;
}

pub open spec fn spec_encode_user_stake(u: UserStake) -> Seq<u8> {
    enc_key(u.owner) + enc_u64(u.staked_amount) + enc_u64(u.reward_debt) + enc_i64(u.last_stake_time)
}

/// Reading stored bytes back: exactly `UserStake::LEN` bytes.
pub open spec fn spec_decode_user_stake(b: Seq<u8>) -> Option<UserStake> {
    if b.len() != 56 {
        None
    } else {
        Some(UserStake {
            owner: seq_to_key(b.subrange(0, 32)),
            staked_amount: dec_u64(b.subrange(32, 40)),
            reward_debt: dec_u64(b.subrange(40, 48)),
            last_stake_time: dec_i64(b.subrange(48, 56)),
        })
    }
}

/// Reading back a stored stake gives the same stake, and bytes that read
/// as a stake are exactly its layout.
pub proof fn lemma_user_stake_roundtrip(u: UserStake, b: Seq<u8>)
    ensures
        spec_decode_user_stake(spec_encode_user_stake(u)) == Some(u),
        spec_decode_user_stake(b) matches Some(v) ==> spec_encode_user_stake(v) == b,
{
    lemma_fixed_width_roundtrips();
    let e = spec_encode_user_stake(u);
    assert(e.subrange(0, 32) =~= u.owner@);
    assert(e.subrange(32, 40) =~= enc_u64(u.staked_amount));
    assert(e.subrange(40, 48) =~= enc_u64(u.reward_debt));
    assert(e.subrange(48, 56) =~= enc_i64(u.last_stake_time));
    lemma_key_from_bytes(u.owner);
    if let Some(v) = spec_decode_user_stake(b) {
        lemma_seq_to_key(b.subrange(0, 32));
        assert(enc_u64(v.staked_amount) == b.subrange(32, 40));
        assert(enc_u64(v.reward_debt) == b.subrange(40, 48));
        assert(enc_i64(v.last_stake_time) == b.subrange(48, 56));
        assert(spec_encode_user_stake(v) =~= b);
    }
}

impl UserStake {
    /// The stored bytes of the stake.
    pub fn to_bytes(&self) -> (r: Vec<u8>)
        ensures
            r@ == spec_encode_user_stake(*self),
    {
        let mut out: Vec<u8> = Vec::new();
        push_key(&mut out, &self.owner);
        push_u64(&mut out, self.staked_amount);
        push_u64(&mut out, self.reward_debt);
        push_i64(&mut out, self.last_stake_time);
        assert(out@ =~= spec_encode_user_stake(*self));
        out
    }

    /// Reads a stake from account data, which must hold exactly one.
    pub fn try_from_slice(data: &[u8]) -> (r: Option<UserStake>)
        ensures
            r == spec_decode_user_stake(data@),
    {
        if data.len() != 56 {
            return None;
        }
        Some(UserStake {
            owner: read_key(data, 0),
            staked_amount: read_u64(data, 32),
            reward_debt: read_u64(data, 40),
            last_stake_time: read_i64(data, 48),
        })
    }
}

/// A value stored in account data in a layout of its own: `encoded` is
/// its bytes and `decoded` reads bytes back, giving a value only for data
/// that holds exactly one encoding.
pub trait Stored: Sized {
    spec fn encoded(&self) -> Seq<u8>;

    spec fn decoded(b: Seq<u8>) -> Option<Self>;

    /// Reading back the bytes of a value gives the value, and bytes that
    /// read as a value are exactly its encoding.
    proof fn lemma_stored_roundtrip(x: Self, b: Seq<u8>)
        ensures
            Self::decoded(x.encoded()) == Some(x),
            Self::decoded(b) matches Some(y) ==> y.encoded() == b,
    ;

    /// The stored bytes of the value.
    fn store(&self) -> (r: Vec<u8>)
        ensures
            r@ == self.encoded(),
    ;

    /// Reads a value from account data.
    fn read(data: &[u8]) -> (r: Option<Self>)
        ensures
            r == Self::decoded(data@),
    ;
}

impl Stored for Pool {
    open spec fn encoded(&self) -> Seq<u8> {
        spec_encode_pool(*self)
    }

    open spec fn decoded(b: Seq<u8>) -> Option<Pool> {
        spec_decode_pool(b)
    }

    proof fn lemma_stored_roundtrip(x: Pool, b: Seq<u8>) {
        lemma_pool_roundtrip(x, b);
    }

    fn store(&self) -> (r: Vec<u8>) {
        self.to_bytes()
    }

    fn read(data: &[u8]) -> (r: Option<Pool>) {
        Pool::try_from_slice(data)
    }
}

impl Stored for UserStake {
    open spec fn encoded(&self) -> Seq<u8> {
        spec_encode_user_stake(*self)
    }

    open spec fn decoded(b: Seq<u8>) -> Option<UserStake> {
        spec_decode_user_stake(b)
    }

    proof fn lemma_stored_roundtrip(x: UserStake, b: Seq<u8>) {
        lemma_user_stake_roundtrip(x, b);
    }

    fn store(&self) -> (r: Vec<u8>) {
        self.to_bytes()
    }

    fn read(data: &[u8]) -> (r: Option<UserStake>) {
        UserStake::try_from_slice(data)
    }
}

} // verus!
