//! Lending market state: markets, reserves and obligations.

use vstd::prelude::*;
use crate::key::{Pubkey, is_zero_key, key_eq, key_is_zero, default_pubkey, seq_to_key, lemma_seq_to_key};
use crate::codec::{enc_key, enc_u8, enc_u16, enc_u128, enc_i64, enc_bool, dec_bool, dec_u16, dec_u128, dec_i64,
    lemma_fixed_width_roundtrips, lemma_key_from_bytes, push_key, push_u8, push_u16, push_u128, push_i64, push_bool,
    read_bool, read_key, read_u16, read_u128, read_i64, seq_to_array, lemma_seq_to_array, lemma_array_from_view};

verus! {

/// A lending market: its admin, the oracle program, and whether it is paused.
#[derive(Debug, Clone, Copy, PartialEq, Eq)]
pub struct Market {
    pub admin: Pubkey,
    pub oracle_program_id: Pubkey,
    pub bump: u8,
    pub paused: bool,
}

pub open spec fn spec_encode_market(m: Market) -> Seq<u8> {
    enc_key(m.admin) + enc_key(m.oracle_program_id) + enc_u8(m.bump) + enc_bool(m.paused)
}

pub open spec fn spec_decode_market(b: Seq<u8>) -> Option<Market> {
    if b.len() != 66 {
        None
    } else {
        match dec_bool(b[65]) {
            None => None,
            Some(paused) => Some(Market {
                admin: seq_to_key(b.subrange(0, 32)),
                oracle_program_id: seq_to_key(b.subrange(32, 64)),
                bump: b[64],
                paused,
            }),
        }
    }
}

/// Reading back a stored market gives the same market, and bytes that read
/// as a market are exactly its layout.
pub proof fn lemma_market_roundtrip(m: Market, b: Seq<u8>)
    ensures
        spec_decode_market(spec_encode_market(m)) == Some(m),
        spec_decode_market(b) matches Some(n) ==> spec_encode_market(n) == b,
{
    let e = spec_encode_market(m);
    assert(e.subrange(0, 32) =~= m.admin@);
    assert(e.subrange(32, 64) =~= m.oracle_program_id@);
    lemma_key_from_bytes(m.admin);
    lemma_key_from_bytes(m.oracle_program_id);
    if let Some(n) = spec_decode_market(b) {
        lemma_seq_to_key(b.subrange(0, 32));
        lemma_seq_to_key(b.subrange(32, 64));
        assert(spec_encode_market(n) =~= b);
    }
}

impl Market {
    pub const LEN: usize = 66;

    pub fn to_bytes(&self) -> (r: Vec<u8>)
        ensures
            r@ == spec_encode_market(*self),
    {
        let mut out: Vec<u8> = Vec::new();
        push_key(&mut out, &self.admin);
        push_key(&mut out, &self.oracle_program_id);
        push_u8(&mut out, self.bump);
        push_bool(&mut out, self.paused);
        assert(out@ =~= spec_encode_market(*self));
        out
    }

    pub fn try_from_slice(data: &[u8]) -> (r: Option<Market>)
        ensures
            r == spec_decode_market(data@),
    {
        if data.len() != 66 {
            return None;
        }
        let paused = match read_bool(data, 65) {
            Some(b) => b,
            None => return None,
        };
        Some(Market { admin: read_key(data, 0), oracle_program_id: read_key(data, 32), bump: data[64], paused })
    }
}

/// A reserve of one token: its vault, interest model, indices (in ray),
/// scaled totals and risk parameters.
#[derive(Debug, Clone, Copy, PartialEq, Eq)]
pub struct Reserve {
    pub market: Pubkey,
    pub token_mint: Pubkey,
    pub vault: Pubkey,
    pub decimals: u8,
    pub base_rate_per_year_bps: u16,
    pub slope1_bps: u16,
    pub slope2_bps: u16,
    pub kink_bps: u16,
    pub liquidity_index: u128,
    pub borrow_index: u128,
    pub last_update: i64,
    pub total_scaled_deposits: u128,
    pub total_scaled_borrows: u128,
    pub ltv_bps: u16,
    pub liquidation_threshold_bps: u16,
    pub liquidation_bonus_bps: u16,
    pub bump: u8,
    pub paused: bool,
}

pub open spec fn spec_encode_reserve(r: Reserve) -> Seq<u8> {
    enc_key(r.market) + enc_key(r.token_mint) + enc_key(r.vault) + enc_u8(r.decimals)
        + enc_u16(r.base_rate_per_year_bps) + enc_u16(r.slope1_bps) + enc_u16(r.slope2_bps) + enc_u16(r.kink_bps)
        + enc_u128(r.liquidity_index) + enc_u128(r.borrow_index) + enc_i64(r.last_update)
        + enc_u128(r.total_scaled_deposits) + enc_u128(r.total_scaled_borrows)
        + enc_u16(r.ltv_bps) + enc_u16(r.liquidation_threshold_bps) + enc_u16(r.liquidation_bonus_bps)
        + enc_u8(r.bump) + enc_bool(r.paused)
}

pub open spec fn spec_decode_reserve(b: Seq<u8>) -> Option<Reserve> {
    if b.len() != 185 {
        None
    } else {
        match dec_bool(b[184]) {
            None => None,
            Some(paused) => Some(Reserve {
                market: seq_to_key(b.subrange(0, 32)),
                token_mint: seq_to_key(b.subrange(32, 64)),
                vault: seq_to_key(b.subrange(64, 96)),
                decimals: b[96],
                base_rate_per_year_bps: dec_u16(b.subrange(97, 99)),
                slope1_bps: dec_u16(b.subrange(99, 101)),
                slope2_bps: dec_u16(b.subrange(101, 103)),
                kink_bps: dec_u16(b.subrange(103, 105)),
                liquidity_index: dec_u128(b.subrange(105, 121)),
                borrow_index: dec_u128(b.subrange(121, 137)),
                last_update: dec_i64(b.subrange(137, 145)),
                total_scaled_deposits: dec_u128(b.subrange(145, 161)),
                total_scaled_borrows: dec_u128(b.subrange(161, 177)),
                ltv_bps: dec_u16(b.subrange(177, 179)),
                liquidation_threshold_bps: dec_u16(b.subrange(179, 181)),
                liquidation_bonus_bps: dec_u16(b.subrange(181, 183)),
                bump: b[183],
                paused,
            }),
        }
    }
}

/// Reading back a stored reserve gives the same reserve.
pub proof fn lemma_reserve_roundtrip(r: Reserve)
    ensures
        spec_decode_reserve(spec_encode_reserve(r)) == Some(r),
{
    lemma_fixed_width_roundtrips();
    let e = spec_encode_reserve(r);
    assert(e.subrange(0, 32) =~= r.market@);
    assert(e.subrange(32, 64) =~= r.token_mint@);
    assert(e.subrange(64, 96) =~= r.vault@);
    assert(e.subrange(97, 99) =~= enc_u16(r.base_rate_per_year_bps));
    assert(e.subrange(99, 101) =~= enc_u16(r.slope1_bps));
    assert(e.subrange(101, 103) =~= enc_u16(r.slope2_bps));
    assert(e.subrange(103, 105) =~= enc_u16(r.kink_bps));
    assert(e.subrange(105, 121) =~= enc_u128(r.liquidity_index));
    assert(e.subrange(121, 137) =~= enc_u128(r.borrow_index));
    assert(e.subrange(137, 145) =~= enc_i64(r.last_update));
    assert(e.subrange(145, 161) =~= enc_u128(r.total_scaled_deposits));
    assert(e.subrange(161, 177) =~= enc_u128(r.total_scaled_borrows));
    assert(e.subrange(177, 179) =~= enc_u16(r.ltv_bps));
    assert(e.subrange(179, 181) =~= enc_u16(r.liquidation_threshold_bps));
    assert(e.subrange(181, 183) =~= enc_u16(r.liquidation_bonus_bps));
    lemma_key_from_bytes(r.market);
    lemma_key_from_bytes(r.token_mint);
    lemma_key_from_bytes(r.vault);
}

/// Bytes that read as a reserve are exactly that reserve's layout.
pub proof fn lemma_reserve_canonical(b: Seq<u8>)
    requires
        spec_decode_reserve(b) is Some,
    ensures
        spec_encode_reserve(spec_decode_reserve(b).unwrap()) == b,
{
    lemma_fixed_width_roundtrips();
    let r = spec_decode_reserve(b).unwrap();
    lemma_seq_to_key(b.subrange(0, 32));
    lemma_seq_to_key(b.subrange(32, 64));
    lemma_seq_to_key(b.subrange(64, 96));
    assert(enc_u16(r.base_rate_per_year_bps) == b.subrange(97, 99));
    assert(enc_u16(r.slope1_bps) == b.subrange(99, 101));
    assert(enc_u16(r.slope2_bps) == b.subrange(101, 103));
    assert(enc_u16(r.kink_bps) == b.subrange(103, 105));
    assert(enc_u128(r.liquidity_index) == b.subrange(105, 121));
    assert(enc_u128(r.borrow_index) == b.subrange(121, 137));
    assert(enc_i64(r.last_update) == b.subrange(137, 145));
    assert(enc_u128(r.total_scaled_deposits) == b.subrange(145, 161));
    assert(enc_u128(r.total_scaled_borrows) == b.subrange(161, 177));
    assert(enc_u16(r.ltv_bps) == b.subrange(177, 179));
    assert(enc_u16(r.liquidation_threshold_bps) == b.subrange(179, 181));
    assert(enc_u16(r.liquidation_bonus_bps) == b.subrange(181, 183));
    assert(spec_encode_reserve(r) =~= b);
}

impl Reserve {
    pub const LEN: usize = 185;

    pub fn to_bytes(&self) -> (r: Vec<u8>)
        ensures
            r@ == spec_encode_reserve(*self),
    {
        let mut out: Vec<u8> = Vec::new();
        push_key(&mut out, &self.market);
        push_key(&mut out, &self.token_mint);
        push_key(&mut out, &self.vault);
        push_u8(&mut out, self.decimals);
        push_u16(&mut out, self.base_rate_per_year_bps);
        push_u16(&mut out, self.slope1_bps);
        push_u16(&mut out, self.slope2_bps);
        push_u16(&mut out, self.kink_bps);
        push_u128(&mut out, self.liquidity_index);
        push_u128(&mut out, self.borrow_index);
        push_i64(&mut out, self.last_update);
        push_u128(&mut out, self.total_scaled_deposits);
        push_u128(&mut out, self.total_scaled_borrows);
        push_u16(&mut out, self.ltv_bps);
        push_u16(&mut out, self.liquidation_threshold_bps);
        push_u16(&mut out, self.liquidation_bonus_bps);
        push_u8(&mut out, self.bump);
        push_bool(&mut out, self.paused);
        assert(out@ =~= spec_encode_reserve(*self));
        out
    }

    pub fn try_from_slice(data: &[u8]) -> (r: Option<Reserve>)
        ensures
            r == spec_decode_reserve(data@),
    {
        if data.len() != 185 {
            return None;
        }
        let paused = match read_bool(data, 184) {
            Some(b) => b,
            None => return None,
        };
        Some(Reserve {
            market: read_key(data, 0),
            token_mint: read_key(data, 32),
            vault: read_key(data, 64),
            decimals: data[96],
            base_rate_per_year_bps: read_u16(data, 97),
            slope1_bps: read_u16(data, 99),
            slope2_bps: read_u16(data, 101),
            kink_bps: read_u16(data, 103),
            liquidity_index: read_u128(data, 105),
            borrow_index: read_u128(data, 121),
            last_update: read_i64(data, 137),
            total_scaled_deposits: read_u128(data, 145),
            total_scaled_borrows: read_u128(data, 161),
            ltv_bps: read_u16(data, 177),
            liquidation_threshold_bps: read_u16(data, 179),
            liquidation_bonus_bps: read_u16(data, 181),
            bump: data[183],
            paused,
        })
    }
}

/// One entry of an obligation: a reserve and the scaled amount held in it.
#[derive(Debug, Clone, Copy, PartialEq, Eq)]
pub struct Position {
    pub reserve: Pubkey,
    pub scaled_amount: u128,
    pub used_as_collateral: bool,
}

/// The empty position: zero address, nothing held, usable as collateral.
pub open spec fn is_default_position(p: Position) -> bool {
    &&& is_zero_key(p.reserve)
    &&& p.scaled_amount == 0
    &&& p.used_as_collateral
}

impl Position {
    /// The empty position.
    pub fn default() -> (p: Position)
        ensures
            is_default_position(p),
    {
        Position { reserve: default_pubkey(), scaled_amount: 0, used_as_collateral: true }
    }
}

/// A user's positions in one market: up to eight collateral and eight
/// borrow entries.
#[derive(Debug, Clone, Copy)]
pub struct Obligations {
    pub market: Pubkey,
    pub owner: Pubkey,
    pub collaterals: [Position; 8],
    pub borrows: [Position; 8],
    pub bump: u8,
}

/// The stored layout of a position.
pub open spec fn enc_position(p: Position) -> Seq<u8> {
    enc_key(p.reserve) + enc_u128(p.scaled_amount) + enc_bool(p.used_as_collateral)
}

/// The stored layout of consecutive positions.
pub open spec fn enc_positions(s: Seq<Position>) -> Seq<u8>
    decreases s.len(),
{
    if s.len() == 0 {
        Seq::empty()
    } else {
        enc_positions(s.drop_last()) + enc_position(s.last())
    }
}

/// Reading a position from its 49 bytes.
pub open spec fn dec_position(b: Seq<u8>) -> Option<Position> {
    match dec_bool(b[48]) {
        None => None,
        Some(used) => Some(Position {
            reserve: seq_to_key(b.subrange(0, 32)),
            scaled_amount: dec_u128(b.subrange(32, 48)),
            used_as_collateral: used,
        }),
    }
}

/// Reading `n` consecutive positions starting at `off`.
pub open spec fn positions_at(b: Seq<u8>, off: int, n: nat) -> Option<Seq<Position>>
    decreases n,
{
    if n == 0 {
        Some(Seq::empty())
    } else {
        match positions_at(b, off, (n - 1) as nat) {
            None => None,
            Some(ps) => match dec_position(b.subrange(off + 49 * (n - 1), off + 49 * n)) {
                None => None,
                Some(p) => Some(ps.push(p)),
            },
        }
    }
}

proof fn lemma_position_roundtrip(p: Position, c: Seq<u8>)
    ensures
        enc_position(p).len() == 49,
        dec_position(enc_position(p)) == Some(p),
        c.len() == 49 && dec_position(c) is Some ==> enc_position(dec_position(c).unwrap()) == c,
{
    lemma_fixed_width_roundtrips();
    let e = enc_position(p);
    assert(e.subrange(0, 32) =~= p.reserve@);
    assert(e.subrange(32, 48) =~= enc_u128(p.scaled_amount));
    lemma_key_from_bytes(p.reserve);
    if c.len() == 49 && dec_position(c) is Some {
        lemma_seq_to_key(c.subrange(0, 32));
        assert(enc_u128(dec_u128(c.subrange(32, 48))) == c.subrange(32, 48));
        assert(enc_position(dec_position(c).unwrap()) =~= c);
    }
}

proof fn lemma_enc_positions_len(s: Seq<Position>)
    ensures
        enc_positions(s).len() == 49 * s.len(),
    decreases s.len(),
{
    if s.len() > 0 {
        lemma_enc_positions_len(s.drop_last());
        lemma_position_roundtrip(s.last(), Seq::empty());
    }
}

proof fn lemma_positions_decode_encoded(b: Seq<u8>, off: int, s: Seq<Position>)
    requires
        0 <= off,
        off + 49 * s.len() <= b.len(),
        b.subrange(off, off + 49 * s.len()) == enc_positions(s),
    ensures
        positions_at(b, off, s.len()) == Some(s),
    decreases s.len(),
{
    if s.len() > 0 {
        let n: int = s.len() as int;
        let init = s.drop_last();
        lemma_enc_positions_len(init);
        lemma_position_roundtrip(s.last(), Seq::empty());
        assert(b.subrange(off, off + 49 * (n - 1)) =~= b.subrange(off, off + 49 * n).subrange(0, 49 * (n - 1)));
        assert(enc_positions(s).subrange(0, 49 * (n - 1)) =~= enc_positions(init));
        lemma_positions_decode_encoded(b, off, init);
        assert(b.subrange(off + 49 * (n - 1), off + 49 * n) =~= b.subrange(off, off + 49 * n).subrange(49 * (n - 1), 49 * n));
        assert(enc_positions(s).subrange(49 * (n - 1), 49 * n) =~= enc_position(s.last()));
        assert(init.push(s.last()) =~= s);
    }
}

proof fn lemma_positions_encode_decoded(b: Seq<u8>, off: int, n: nat)
    requires
        0 <= off,
        off + 49 * n <= b.len(),
        positions_at(b, off, n) is Some,
    ensures
        positions_at(b, off, n).unwrap().len() == n,
        enc_positions(positions_at(b, off, n).unwrap()) == b.subrange(off, off + 49 * n),
    decreases n,
{
    if n > 0 {
        lemma_positions_encode_decoded(b, off, (n - 1) as nat);
        let ps = positions_at(b, off, (n - 1) as nat).unwrap();
        let c = b.subrange(off + 49 * (n - 1), off + 49 * n);
        let p = dec_position(c).unwrap();
        lemma_position_roundtrip(p, c);
        let all = ps.push(p);
        assert(all.drop_last() =~= ps);
        assert(enc_positions(all) =~= b.subrange(off, off + 49 * n));
    }
}

/// The stored layout of an obligation.
pub open spec fn spec_encode_obligations(o: Obligations) -> Seq<u8> {
    enc_key(o.market) + enc_key(o.owner) + enc_positions(o.collaterals@) + enc_positions(o.borrows@) + enc_u8(o.bump)
}

/// Reading stored bytes back: exactly 849 bytes, every position readable.
pub open spec fn spec_decode_obligations(b: Seq<u8>) -> Option<Obligations> {
    if b.len() != 849 {
        None
    } else {
        match (positions_at(b, 64, 8), positions_at(b, 456, 8)) {
            (Some(cs), Some(bs)) => Some(Obligations {
                market: seq_to_key(b.subrange(0, 32)),
                owner: seq_to_key(b.subrange(32, 64)),
                collaterals: seq_to_array(cs),
                borrows: seq_to_array(bs),
                bump: b[848],
            }),
            _ => None,
        }
    }
}

/// Reading back a stored obligation gives the same obligation.
pub proof fn lemma_obligations_roundtrip(o: Obligations)
    ensures
        spec_decode_obligations(spec_encode_obligations(o)) == Some(o),
{
    let e = spec_encode_obligations(o);
    lemma_enc_positions_len(o.collaterals@);
    lemma_enc_positions_len(o.borrows@);
    assert(e.subrange(0, 32) =~= o.market@);
    assert(e.subrange(32, 64) =~= o.owner@);
    assert(e.subrange(64, 456) =~= enc_positions(o.collaterals@));
    assert(e.subrange(456, 848) =~= enc_positions(o.borrows@));
    lemma_positions_decode_encoded(e, 64, o.collaterals@);
    lemma_positions_decode_encoded(e, 456, o.borrows@);
    lemma_key_from_bytes(o.market);
    lemma_key_from_bytes(o.owner);
    lemma_array_from_view(o.collaterals);
    lemma_array_from_view(o.borrows);
}

/// Bytes that read as an obligation are exactly that obligation's layout.
pub proof fn lemma_obligations_canonical(b: Seq<u8>)
    requires
        spec_decode_obligations(b) is Some,
    ensures
        spec_encode_obligations(spec_decode_obligations(b).unwrap()) == b,
{
    let o = spec_decode_obligations(b).unwrap();
    lemma_positions_encode_decoded(b, 64, 8);
    lemma_positions_encode_decoded(b, 456, 8);
    let cs = positions_at(b, 64, 8).unwrap();
    let bs = positions_at(b, 456, 8).unwrap();
    lemma_seq_to_array::<Position, 8>(cs, cs[0]);
    lemma_seq_to_array::<Position, 8>(bs, bs[0]);
    lemma_seq_to_key(b.subrange(0, 32));
    lemma_seq_to_key(b.subrange(32, 64));
    assert(spec_encode_obligations(o) =~= b);
}

fn push_positions(out: &mut Vec<u8>, slots: &[Position; 8])
    ensures
        final(out)@ == old(out)@ + enc_positions(slots@),
{
    let ghost start = out@;
    let mut i: usize = 0;
    while i < 8
        invariant
            0 <= i <= 8,
            out@ == start + enc_positions(slots@.take(i as int)),
        decreases 8 - i,
    {
        let p = slots[i];
        push_key(out, &p.reserve);
        push_u128(out, p.scaled_amount);
        push_bool(out, p.used_as_collateral);
        assert(slots@.take(i + 1).drop_last() =~= slots@.take(i as int));
        assert(out@ =~= start + enc_positions(slots@.take(i + 1)));
        i = i + 1;
    }
    assert(slots@.take(8) =~= slots@);
}

fn read_positions(data: &[u8], off: usize) -> (r: Option<[Position; 8]>)
    requires
        off + 392 <= data@.len(),
    ensures
        match r {
            Some(a) => positions_at(data@, off as int, 8) == Some(a@),
            None => positions_at(data@, off as int, 8) is None,
        },
{
    let _n = data.len();
    let mut a = [Position { reserve: default_pubkey(), scaled_amount: 0, used_as_collateral: false }; 8];
    let mut i: usize = 0;
    while i < 8
        invariant
            0 <= i <= 8,
            off + 392 <= data@.len(),
            data@.len() <= usize::MAX,
            positions_at(data@, off as int, i as nat) == Some(a@.take(i as int)),
        decreases 8 - i,
    {
        let at = off + 49 * i;
        let used = match read_bool(data, at + 48) {
            Some(b) => b,
            None => {
                proof {
                    let c = data@.subrange(at as int, at + 49);
                    assert(c[48] == data@[at + 48]);
                    let mut k: nat = (i + 1) as nat;
                    assert(positions_at(data@, off as int, k) is None);
                    assert(positions_at(data@, off as int, 8) is None) by {
                        lemma_positions_none_extends(data@, off as int, k, 8);
                    }
                }
                return None;
            },
        };
        let p = Position { reserve: read_key(data, at), scaled_amount: read_u128(data, at + 32), used_as_collateral: used };
        proof {
            let c = data@.subrange(at as int, at + 49);
            assert(c.subrange(0, 32) =~= data@.subrange(at as int, at + 32));
            assert(c.subrange(32, 48) =~= data@.subrange(at + 32, at + 48));
            assert(c[48] == data@[at + 48]);
            assert(dec_position(c) == Some(p));
        }
        let ghost before = a@;
        a[i] = p;
        assert(a@.take(i + 1) =~= before.take(i as int).push(p));
        i = i + 1;
    }
    assert(a@.take(8) =~= a@);
    Some(a)
}

proof fn lemma_positions_none_extends(b: Seq<u8>, off: int, k: nat, n: nat)
    requires
        k <= n,
        positions_at(b, off, k) is None,
    ensures
        positions_at(b, off, n) is None,
    decreases n - k,
{
    if k < n {
        lemma_positions_none_extends(b, off, k, (n - 1) as nat);
    }
}

impl Obligations {
    pub const LEN: usize = 849;

    pub fn to_bytes(&self) -> (r: Vec<u8>)
        ensures
            r@ == spec_encode_obligations(*self),
    {
        let mut out: Vec<u8> = Vec::new();
        push_key(&mut out, &self.market);
        push_key(&mut out, &self.owner);
        push_positions(&mut out, &self.collaterals);
        push_positions(&mut out, &self.borrows);
        push_u8(&mut out, self.bump);
        assert(out@ =~= spec_encode_obligations(*self));
        out
    }

    pub fn try_from_slice(data: &[u8]) -> (r: Option<Obligations>)
        ensures
            r == spec_decode_obligations(data@),
    {
        if data.len() != 849 {
            return None;
        }
        let collaterals = match read_positions(data, 64) {
            Some(a) => a,
            None => return None,
        };
        let borrows = match read_positions(data, 456) {
            Some(a) => a,
            None => return None,
        };
        proof {
            lemma_array_from_view(collaterals);
            lemma_array_from_view(borrows);
        }
        Some(Obligations { market: read_key(data, 0), owner: read_key(data, 32), collaterals, borrows, bump: data[848] })
    }
}

/// The first slot at or after `i` that already holds `reserve`.
pub open spec fn first_holding(s: Seq<Position>, reserve: Pubkey, i: int) -> Option<int>
    decreases s.len() - i,
{
    if i < 0 || i >= s.len() {
        None
    } else if s[i].reserve == reserve {
        Some(i)
    } else {
        first_holding(s, reserve, i + 1)
    }
}

/// The first empty slot (zero reserve address) at or after `i`.
pub open spec fn first_empty(s: Seq<Position>, i: int) -> Option<int>
    decreases s.len() - i,
{
    if i < 0 || i >= s.len() {
        None
    } else if is_zero_key(s[i].reserve) {
        Some(i)
    } else {
        first_empty(s, i + 1)
    }
}

/// The slot an update for `reserve` goes to: the slot already holding the
/// reserve, else the first empty slot, else none.
pub open spec fn upsert_slot(s: Seq<Position>, reserve: Pubkey) -> Option<int> {
    match first_holding(s, reserve, 0) {
        Some(i) => Some(i),
        None => first_empty(s, 0),
    }
}

/// The position a slot starts from: an empty slot is claimed for `reserve`
/// with nothing held and the given collateral flag.
pub open spec fn claimed_position(p: Position, reserve: Pubkey, use_as_collateral: bool) -> Position {
    if is_zero_key(p.reserve) {
        Position { reserve, scaled_amount: 0, used_as_collateral: use_as_collateral }
    } else {
        p
    }
}

/// The held amount after applying `delta`, with the held amount read as
/// a signed 128-bit value.
pub open spec fn applied_amount(p: Position, reserve: Pubkey, use_as_collateral: bool, delta: i128) -> int {
    (claimed_position(p, reserve, use_as_collateral).scaled_amount as i128) + delta
}

/// The inputs on which the update does not overflow.
pub open spec fn upsert_defined(s: Seq<Position>, reserve: Pubkey, delta: i128, use_as_collateral: bool) -> bool {
    match upsert_slot(s, reserve) {
        Some(i) => i128::MIN <= applied_amount(s[i], reserve, use_as_collateral, delta) <= i128::MAX,
        None => true,
    }
}

/// The slot's new content: the claimed position with the new amount, or
/// the empty position when the amount drops to zero or below.
pub open spec fn updated_position(p: Position, reserve: Pubkey, use_as_collateral: bool, delta: i128, q: Position) -> bool {
    let next = applied_amount(p, reserve, use_as_collateral, delta);
    if next <= 0 {
        is_default_position(q)
    } else {
        q == Position { scaled_amount: next as u128, ..claimed_position(p, reserve, use_as_collateral) }
    }
}

proof fn lemma_first_holding_found(s: Seq<Position>, reserve: Pubkey, i: int)
    requires
        0 <= i <= s.len(),
        forall|j: int| 0 <= j < i ==> s[j].reserve != reserve,
    ensures
        first_holding(s, reserve, 0) == first_holding(s, reserve, i),
    decreases i,
{
    if i > 0 {
        lemma_first_holding_found(s, reserve, i - 1);
    }
}

proof fn lemma_first_empty_found(s: Seq<Position>, i: int)
    requires
        0 <= i <= s.len(),
        forall|j: int| 0 <= j < i ==> !is_zero_key(#[trigger] s[j].reserve),
    ensures
        first_empty(s, 0) == first_empty(s, i),
    decreases i,
{
    if i > 0 {
        lemma_first_empty_found(s, i - 1);
    }
}

/// `after` is `before` with the update for `reserve` applied: only the
/// chosen slot changes, and it changes as `updated_position` says; with no
/// slot available nothing changes.
pub open spec fn upserted(before: [Position; 8], reserve: Pubkey, delta: i128, use_as_collateral: bool, after: [Position; 8]) -> bool {
    match upsert_slot(before@, reserve) {
        Some(i) => {
            &&& forall|j: int| 0 <= j < 8 && j != i ==> after[j] == before[j]
            &&& updated_position(before[i], reserve, use_as_collateral, delta, after[i])
        },
        None => after == before,
    }
}

/// Slots in good order: an empty slot holds nothing, a used slot holds a
/// positive amount, and no reserve occupies two slots.
pub open spec fn slots_well_formed(s: [Position; 8]) -> bool {
    &&& forall|i: int| 0 <= i < 8 && is_zero_key(#[trigger] s[i].reserve) ==> s[i].scaled_amount == 0
    &&& forall|i: int| 0 <= i < 8 && !is_zero_key(#[trigger] s[i].reserve) ==> s[i].scaled_amount > 0
    &&& forall|i: int, j: int| 0 <= i < 8 && 0 <= j < 8 && i != j && !is_zero_key(#[trigger] s[i].reserve)
        ==> s[i].reserve != #[trigger] s[j].reserve
}

proof fn lemma_first_holding_none(s: Seq<Position>, reserve: Pubkey, i: int)
    requires
        0 <= i,
        first_holding(s, reserve, i) is None,
    ensures
        forall|j: int| i <= j < s.len() ==> s[j].reserve != reserve,
    decreases s.len() - i,
{
    if i < s.len() {
        lemma_first_holding_none(s, reserve, i + 1);
    }
}

proof fn lemma_first_holding_some(s: Seq<Position>, reserve: Pubkey, i: int)
    requires
        0 <= i,
        first_holding(s, reserve, i) is Some,
    ensures
        ({
            let k = first_holding(s, reserve, i).unwrap();
            i <= k < s.len() && s[k].reserve == reserve
        }),
    decreases s.len() - i,
{
    if i < s.len() && s[i].reserve != reserve {
        lemma_first_holding_some(s, reserve, i + 1);
    }
}

proof fn lemma_first_empty_some(s: Seq<Position>, i: int)
    requires
        0 <= i,
        first_empty(s, i) is Some,
    ensures
        ({
            let k = first_empty(s, i).unwrap();
            i <= k < s.len() && is_zero_key(s[k].reserve)
        }),
    decreases s.len() - i,
{
    if i < s.len() && !is_zero_key(s[i].reserve) {
        lemma_first_empty_some(s, i + 1);
    }
}

/// An update for a non-zero reserve keeps slots in good order.
pub proof fn lemma_upsert_keeps_slots_well_formed(
    before: [Position; 8],
    reserve: Pubkey,
    delta: i128,
    use_as_collateral: bool,
    after: [Position; 8],
)
    requires
        slots_well_formed(before),
        !is_zero_key(reserve),
        upserted(before, reserve, delta, use_as_collateral, after),
    ensures
        slots_well_formed(after),
{
    let s = before@;
    match upsert_slot(s, reserve) {
        Some(k) => {
            match first_holding(s, reserve, 0) {
                Some(_) => {
                    lemma_first_holding_some(s, reserve, 0);
                },
                None => {
                    lemma_first_holding_none(s, reserve, 0);
                    lemma_first_empty_some(s, 0);
                },
            }
            assert(after[k].reserve == reserve || is_zero_key(after[k].reserve));
            assert forall|i: int, j: int|
                0 <= i < 8 && 0 <= j < 8 && i != j && !is_zero_key(#[trigger] after[i].reserve)
                implies after[i].reserve != #[trigger] after[j].reserve by {
                if i != k && j != k {
                    assert(after[i] == before[i] && after[j] == before[j]);
                } else if i == k {
                    assert(after[j] == before[j]);
                    if !is_zero_key(before[j].reserve) && before[j].reserve == reserve {
                        assert(before[k].reserve == reserve);
                    }
                } else {
                    assert(after[i] == before[i]);
                    if !is_zero_key(after[k].reserve) {
                        assert(after[k].reserve == reserve);
                        if before[i].reserve == reserve {
                            assert(before[k].reserve == reserve);
                        }
                    }
                }
            }
        },
        None => {},
    }
}

/// The slots after the update for `reserve`.
pub open spec fn spec_upsert(before: [Position; 8], reserve: Pubkey, delta: i128, use_as_collateral: bool) -> [Position; 8] {
    choose|after: [Position; 8]| upserted(before, reserve, delta, use_as_collateral, after)
}

/// The update's outcome is determined by the slots and the update.
pub proof fn lemma_upserted_unique(before: [Position; 8], reserve: Pubkey, delta: i128, use_as_collateral: bool, x: [Position; 8], y: [Position; 8])
    requires
        upserted(before, reserve, delta, use_as_collateral, x),
        upserted(before, reserve, delta, use_as_collateral, y),
    ensures
        x == y,
{
    if let Some(i) = upsert_slot(before@, reserve) {
        let next = applied_amount(before[i], reserve, use_as_collateral, delta);
        if next <= 0 {
            crate::key::lemma_zero_keys_equal(x[i].reserve, y[i].reserve);
        }
        assert(x[i] == y[i]);
        assert(x =~= y);
    }
}

/// The update computes `spec_upsert`.
pub proof fn lemma_upserted_is_spec(before: [Position; 8], reserve: Pubkey, delta: i128, use_as_collateral: bool, after: [Position; 8])
    requires
        upserted(before, reserve, delta, use_as_collateral, after),
    ensures
        after == spec_upsert(before, reserve, delta, use_as_collateral),
{
    let c = spec_upsert(before, reserve, delta, use_as_collateral);
    assert(upserted(before, reserve, delta, use_as_collateral, c));
    lemma_upserted_unique(before, reserve, delta, use_as_collateral, after, c);
}

proof fn lemma_first_holding_in_range(s: Seq<Position>, reserve: Pubkey, i: int)
    requires
        0 <= i,
    ensures
        first_holding(s, reserve, i) matches Some(j) ==> i <= j < s.len(),
    decreases s.len() - i,
{
    if i < s.len() && s[i].reserve != reserve {
        lemma_first_holding_in_range(s, reserve, i + 1);
    }
}

proof fn lemma_first_empty_in_range(s: Seq<Position>, i: int)
    requires
        0 <= i,
    ensures
        first_empty(s, i) matches Some(j) ==> i <= j < s.len(),
    decreases s.len() - i,
{
    if i < s.len() && !is_zero_key(s[i].reserve) {
        lemma_first_empty_in_range(s, i + 1);
    }
}

/// Whenever the update is defined it has a result, and `spec_upsert` is it.
pub proof fn lemma_upsert_exists(before: [Position; 8], reserve: Pubkey, delta: i128, use_as_collateral: bool)
    requires
        upsert_defined(before@, reserve, delta, use_as_collateral),
    ensures
        upserted(before, reserve, delta, use_as_collateral, spec_upsert(before, reserve, delta, use_as_collateral)),
{
    lemma_first_holding_in_range(before@, reserve, 0);
    lemma_first_empty_in_range(before@, 0);
    match upsert_slot(before@, reserve) {
        None => {
            assert(upserted(before, reserve, delta, use_as_collateral, before));
        },
        Some(i) => {
            let next = applied_amount(before[i], reserve, use_as_collateral, delta);
            let zero = vstd::array::spec_array_fill_for_copy_type::<u8, 32>(0u8);
            assert(is_zero_key(zero));
            let q = if next <= 0 {
                Position { reserve: zero, scaled_amount: 0, used_as_collateral: true }
            } else {
                Position { scaled_amount: next as u128, ..claimed_position(before[i], reserve, use_as_collateral) }
            };
            let w = vstd::array::spec_array_update(before, i, q);
            assert(w@ == before@.update(i, q));
            assert(forall|j: int| 0 <= j < 8 && j != i ==> w[j] == before[j]);
            assert(w[i] == q);
            assert(upserted(before, reserve, delta, use_as_collateral, w));
        },
    }
}

impl Obligations {
    /// The slot an update for `reserve` goes to: the slot already holding
    /// it, else the first empty one.
    fn find_upsert_slot(slots: &[Position; 8], reserve: &Pubkey) -> (r: Option<usize>)
        ensures
            upsert_slot(slots@, *reserve) == match r { Some(k) => Some(k as int), None => None::<int> },
            r matches Some(k) ==> k < 8,
    {
        let reserve = *reserve;
        let ghost s = slots@;
        let mut idx: Option<usize> = None;
        let mut i: usize = 0;
        while i < 8
            invariant_except_break
                forall|j: int| 0 <= j < i ==> s[j].reserve != reserve,
                match idx {
                    Some(k) => k < i && is_zero_key(s[k as int].reserve) && first_empty(s, 0) == Some(k as int),
                    None => {
                        &&& forall|j: int| 0 <= j < i ==> !is_zero_key(#[trigger] s[j].reserve)
                        &&& first_empty(s, 0) == first_empty(s, i as int)
                    },
                },
            invariant
                0 <= i <= 8,
                s == slots@,
                slots@.len() == 8,
                first_holding(s, reserve, 0) == first_holding(s, reserve, i as int),
            ensures
                upsert_slot(s, reserve) == match idx { Some(k) => Some(k as int), None => None::<int> },
                idx matches Some(k) ==> k < 8,
            decreases 8 - i,
        {
            if key_eq(&slots[i].reserve, &reserve) {
                idx = Some(i);
                break;
            }
            if key_is_zero(&slots[i].reserve) && idx.is_none() {
                proof {
                    lemma_first_empty_found(s, i as int);
                }
                idx = Some(i);
            }
            i = i + 1;
        }
        idx
    }

    /// Adds `delta_scaled` to the position for `reserve` in `slots`: in the
    /// slot that already holds the reserve, else in the first empty slot
    /// (claimed with `use_as_collateral`). A position whose amount drops to
    /// zero or below is reset to the empty position. With no slot free the
    /// slots stay unchanged.
    pub fn upsert_position(slots: &mut [Position; 8], reserve: Pubkey, delta_scaled: i128, use_as_collateral: bool)
        requires
            upsert_defined(old(slots)@, reserve, delta_scaled, use_as_collateral),
        ensures
            upserted(*old(slots), reserve, delta_scaled, use_as_collateral, *final(slots)),
    {
        let idx = Self::find_upsert_slot(slots, &reserve);
        if let Some(i) = idx {
            let mut p = slots[i];
            if key_is_zero(&p.reserve) {
                p.reserve = reserve;
                p.scaled_amount = 0;
                p.used_as_collateral = use_as_collateral;
            }
            let cur = #[verifier::truncate] (p.scaled_amount as i128);
            let next = cur + delta_scaled;
            p.scaled_amount = if next <= 0 { 0 } else { next as u128 };
            if p.scaled_amount == 0 {
                p = Position::default();
            }
            slots[i] = p;
        }
    }

    /// Whether `upsert_position` can apply `delta_scaled` for `reserve`
    /// without overflowing the signed amount.
    pub fn upsert_fits(slots: &[Position; 8], reserve: Pubkey, delta_scaled: i128, use_as_collateral: bool) -> (r: bool)
        ensures
            r == upsert_defined(slots@, reserve, delta_scaled, use_as_collateral),
    {
        match Self::find_upsert_slot(slots, &reserve) {
            None => true,
            Some(i) => {
                let p = slots[i];
                let cur: i128 = if key_is_zero(&p.reserve) { 0 } else { #[verifier::truncate] (p.scaled_amount as i128) };
                cur.checked_add(delta_scaled).is_some()
            },
        }
    }
}

} // verus!
