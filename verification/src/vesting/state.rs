//! The vesting schedule and its arithmetic.

use vstd::prelude::*;
use vstd::arithmetic::div_mod::{lemma_div_is_ordered, lemma_div_multiples_vanish};
use vstd::arithmetic::mul::lemma_mul_inequality;
use crate::key::{Pubkey, seq_to_key, lemma_seq_to_key};
use crate::codec::{enc_key, enc_i64, enc_u64, enc_bool, enc_u8, dec_bool, dec_i64, dec_u64, lemma_fixed_width_roundtrips, lemma_key_from_bytes, push_key, push_i64, push_u64, push_bool, push_u8, read_bool, read_key, read_i64, read_u64};

verus! {

/// Seed of the program address that holds a vesting schedule: `b"vesting"`.
pub const VESTING_SEED: [u8; 7] = [118, 101, 115, 116, 105, 110, 103];

/// Seed reserved for escrow addresses: `b"escrow"`.
pub const ESCROW_SEED: [u8; 6] = [101, 115, 99, 114, 111, 119];

/// A vesting schedule for one beneficiary and one mint.
#[derive(Debug, Clone, Copy, PartialEq, Eq)]
pub struct VestingState {
    /// Who receives the tokens.
    pub beneficiary: Pubkey,
    /// Who set the schedule up.
    pub admin: Pubkey,
    /// The token mint.
    pub mint: Pubkey,
    /// Token account holding the escrowed tokens, owned by the vesting address.
    pub escrow_ata: Pubkey,
    pub start_time: i64,
    pub cliff_time: i64,
    pub end_time: i64,
    pub total_amount: u64,
    pub claimed_amount: u64,
    pub revocable: bool,
    pub vesting_bump: u8,
}

/// `max(x, 0)`.
pub open spec fn nonneg(x: int) -> int {
    if x > 0 { x } else { 0 }
}

/// A schedule as initialization accepts it: start, cliff and end in order,
/// a positive duration and a positive total.
pub open spec fn valid_schedule(s: VestingState) -> bool {
    &&& s.start_time <= s.cliff_time
    &&& s.cliff_time <= s.end_time
    &&& s.start_time < s.end_time
    &&& s.total_amount > 0
}

/// Tokens vested at time `now`: none before the cliff, all after the end,
/// and in between the share of the total proportional to the time elapsed
/// since the start (rounded down).
pub open spec fn spec_vested_amount(s: VestingState, now: i64) -> int {
    if now < s.cliff_time {
        0
    } else if now > s.end_time {
        s.total_amount as int
    } else {
        (nonneg(now - s.start_time) * s.total_amount) / nonneg(s.end_time - s.start_time)
    }
}

/// The inputs on which computing the vested amount neither overflows nor
/// divides by zero.
pub open spec fn vested_defined(s: VestingState, now: i64) -> bool {
    now < s.cliff_time || now > s.end_time || {
        &&& i64::MIN <= now - s.start_time <= i64::MAX
        &&& i64::MIN <= s.end_time - s.start_time <= i64::MAX
        &&& nonneg(s.end_time - s.start_time) > 0
        &&& nonneg(now - s.start_time) * s.total_amount <= u64::MAX
    }
}

/// Tokens the beneficiary may still claim at `now`: vested minus claimed,
/// floored at zero.
pub open spec fn spec_claimable(s: VestingState, now: i64) -> int {
    nonneg(spec_vested_amount(s, now) - s.claimed_amount)
}

impl VestingState {
    /// The size the program gives a vesting account: 4 bytes. This is
    /// fewer than the 170 bytes of an encoded schedule, so a schedule does
    /// not fit into an account created with it.
    pub const LEN: usize = 4;

    /// Tokens vested at `now`.
    pub fn vested_amount(&self, now: i64) -> (r: u64)
        requires
            vested_defined(*self, now),
        ensures
            r == spec_vested_amount(*self, now),
    {
        if now < self.cliff_time {
            return 0;
        }
        if now > self.end_time {
            return self.total_amount;
        }
        let e = now - self.start_time;
        let elapsed: u64 = if e > 0 { e as u64 } else { 0 };
        let d = self.end_time - self.start_time;
        let duration: u64 = if d > 0 { d as u64 } else { 0 };
        let total = self.total_amount;
        (elapsed * total) / duration
    }

    /// Whether the vested amount at `now` can be computed.
    pub fn vested_is_defined(&self, now: i64) -> (r: bool)
        ensures
            r == vested_defined(*self, now),
    {
        if now < self.cliff_time || now > self.end_time {
            return true;
        }
        let e = (now as i128) - (self.start_time as i128);
        let d = (self.end_time as i128) - (self.start_time as i128);
        if e < i64::MIN as i128 || e > i64::MAX as i128 || d < i64::MIN as i128 || d > i64::MAX as i128 || d <= 0 {
            return false;
        }
        let elapsed: u128 = if e > 0 { e as u128 } else { 0 };
        let total = self.total_amount as u128;
        assert(elapsed * total <= 0x8000_0000_0000_0000u128 * 0x1_0000_0000_0000_0000u128) by (nonlinear_arith)
            requires
                elapsed <= 0x8000_0000_0000_0000u128,
                total <= 0xffff_ffff_ffff_ffffu128;
        elapsed * total <= 0xffff_ffff_ffff_ffffu128
    }

    /// Tokens claimable at `now`: vested minus already claimed, floored at zero.
    pub fn claimable(&self, now: i64) -> (r: u64)
        requires
            vested_defined(*self, now),
        ensures
            r == spec_claimable(*self, now),
    {
        self.vested_amount(now).saturating_sub(self.claimed_amount)
    }

    /// Whether everything has been claimed.
    pub fn fully_claimed(&self) -> (r: bool)
        ensures
            r == (self.claimed_amount >= self.total_amount),
    {
        self.claimed_amount >= self.total_amount
    }
}

/// Under a valid schedule the vested amount never exceeds the total.
pub proof fn lemma_vested_at_most_total(s: VestingState, now: i64)
    requires
        valid_schedule(s),
    ensures
        0 <= spec_vested_amount(s, now) <= s.total_amount,
{
    if now >= s.cliff_time && now <= s.end_time {
        let e = nonneg(now - s.start_time);
        let d = nonneg(s.end_time - s.start_time);
        assert(e <= d);
        lemma_mul_inequality(e, d, s.total_amount as int);
        lemma_mul_inequality(0, e, s.total_amount as int);
        lemma_div_is_ordered(e * s.total_amount, d * s.total_amount, d);
        lemma_div_is_ordered(0, e * s.total_amount, d);
        assert(d * s.total_amount == s.total_amount * d) by (nonlinear_arith);
        lemma_div_multiples_vanish(s.total_amount as int, d);
    }
}

/// Under a valid schedule the vested amount never decreases as time passes.
pub proof fn lemma_vested_monotone(s: VestingState, t1: i64, t2: i64)
    requires
        valid_schedule(s),
        t1 <= t2,
    ensures
        spec_vested_amount(s, t1) <= spec_vested_amount(s, t2),
{
    lemma_vested_at_most_total(s, t1);
    lemma_vested_at_most_total(s, t2);
    if t1 >= s.cliff_time && t2 <= s.end_time {
        let e1 = nonneg(t1 - s.start_time);
        let e2 = nonneg(t2 - s.start_time);
        let d = nonneg(s.end_time - s.start_time);
        lemma_mul_inequality(e1, e2, s.total_amount as int);
        lemma_div_is_ordered(e1 * s.total_amount, e2 * s.total_amount, d);
    }
}

/// Once the end time is reached everything has vested.
pub proof fn lemma_fully_vested_at_end(s: VestingState, now: i64)
    requires
        valid_schedule(s),
        now >= s.end_time,
    ensures
        spec_vested_amount(s, now) == s.total_amount,
{
    if now == s.end_time {
        let d = nonneg(s.end_time - s.start_time);
        assert(d * s.total_amount == s.total_amount * d) by (nonlinear_arith);
        lemma_div_multiples_vanish(s.total_amount as int, d);
    }
}

/// Between the cliff and the end of a valid schedule, the vested amount is
/// the share of the total that the time since the start is of the whole
/// duration, rounded down: times the duration it is at most the elapsed
/// time times the total, and less than one duration more.
pub proof fn lemma_vested_is_elapsed_share(s: VestingState, now: i64)
    requires
        valid_schedule(s),
        s.cliff_time <= now <= s.end_time,
    ensures
        spec_vested_amount(s, now) * (s.end_time - s.start_time) <= (now - s.start_time) * s.total_amount,
        (now - s.start_time) * s.total_amount < (spec_vested_amount(s, now) + 1) * (s.end_time - s.start_time),
{
    let e = now - s.start_time;
    let d = s.end_time - s.start_time;
    assert(e >= 0 && d > 0);
    assert(e * s.total_amount >= 0) by (nonlinear_arith)
        requires e >= 0, s.total_amount >= 0;
    crate::solend::math::lemma_floor_division(e * s.total_amount, d);
}

/// The vested amount depends on the times only through their distances
/// from the start: moving the start, the cliff, the end and the current
/// time by the same offset leaves it unchanged.
pub proof fn lemma_vested_shift_invariant(s: VestingState, now: i64, offset: int)
    requires
        i64::MIN <= s.start_time + offset <= i64::MAX,
        i64::MIN <= s.cliff_time + offset <= i64::MAX,
        i64::MIN <= s.end_time + offset <= i64::MAX,
        i64::MIN <= now + offset <= i64::MAX,
    ensures
        spec_vested_amount(VestingState {
            start_time: (s.start_time + offset) as i64,
            cliff_time: (s.cliff_time + offset) as i64,
            end_time: (s.end_time + offset) as i64,
            ..s
        }, (now + offset) as i64) == spec_vested_amount(s, now),
{
}

/// Claiming what is claimable brings the claimed amount up to the vested
/// amount (it never lowers it), so under a valid schedule a claim never
/// takes the claimed amount beyond the total.
pub proof fn lemma_claim_stays_within_total(s: VestingState, now: i64)
    requires
        valid_schedule(s),
        s.claimed_amount <= s.total_amount,
    ensures
        s.claimed_amount + spec_claimable(s, now) <= s.total_amount,
        s.claimed_amount + spec_claimable(s, now) == if spec_vested_amount(s, now) > s.claimed_amount {
            spec_vested_amount(s, now)
        } else {
            s.claimed_amount as int
        },
{
    lemma_vested_at_most_total(s, now);
}

/// A claim takes everything claimable: right after it, at the same time,
/// nothing more can be claimed.
pub proof fn lemma_nothing_left_after_claim(s: VestingState, now: i64)
    requires
        valid_schedule(s),
        s.claimed_amount <= s.total_amount,
    ensures
        spec_claimable(VestingState { claimed_amount: (s.claimed_amount + spec_claimable(s, now)) as u64, ..s }, now) == 0,
{
    lemma_claim_stays_within_total(s, now);
}

/// The schedule after a claim at `now`: when something is left and
/// something is claimable, the claimable amount is added to the claimed
/// amount; otherwise the claim is refused and the schedule stays as it is.
pub open spec fn claim_step(s: VestingState, now: i64) -> VestingState {
    if s.claimed_amount < s.total_amount && spec_claimable(s, now) > 0 {
        VestingState { claimed_amount: (s.claimed_amount + spec_claimable(s, now)) as u64, ..s }
    } else {
        s
    }
}

/// What a claim at `now` pays out: the claimable amount, or nothing when
/// the claim is refused.
pub open spec fn claim_payment(s: VestingState, now: i64) -> int {
    if s.claimed_amount < s.total_amount && spec_claimable(s, now) > 0 {
        spec_claimable(s, now)
    } else {
        0
    }
}

/// The schedule after claims at each of `times`, in order.
pub open spec fn claims_at(s: VestingState, times: Seq<i64>) -> VestingState
    decreases times.len(),
{
    if times.len() == 0 {
        s
    } else {
        claim_step(claims_at(s, times.drop_last()), times.last())
    }
}

/// Everything paid out by claims at each of `times`, in order.
pub open spec fn paid_at(s: VestingState, times: Seq<i64>) -> int
    decreases times.len(),
{
    if times.len() == 0 {
        0
    } else {
        paid_at(s, times.drop_last()) + claim_payment(claims_at(s, times.drop_last()), times.last())
    }
}

/// Times that never go back.
pub open spec fn non_decreasing(times: Seq<i64>) -> bool {
    forall|i: int, j: int| 0 <= i <= j < times.len() ==> times[i] <= times[j]
}

/// Claims at times that never go back, on a fresh valid schedule, pay out
/// in total exactly the claimed amount, which after the last claim is the
/// amount vested at its time and never more than the total. Nothing but
/// the claimed amount changes.
pub proof fn lemma_claims_pay_what_has_vested(s: VestingState, times: Seq<i64>)
    requires
        valid_schedule(s),
        s.claimed_amount == 0,
        non_decreasing(times),
    ensures
        claims_at(s, times) == (VestingState { claimed_amount: claims_at(s, times).claimed_amount, ..s }),
        claims_at(s, times).claimed_amount == paid_at(s, times),
        claims_at(s, times).claimed_amount <= s.total_amount,
        times.len() > 0 ==> claims_at(s, times).claimed_amount == spec_vested_amount(s, times.last()),
    decreases times.len(),
{
    if times.len() > 0 {
        let p = times.drop_last();
        assert forall|i: int, j: int| 0 <= i <= j < p.len() implies p[i] <= p[j] by {
            assert(p[i] == times[i] && p[j] == times[j]);
        }
        lemma_claims_pay_what_has_vested(s, p);
        let c = claims_at(s, p);
        let t = times.last();
        assert(spec_vested_amount(c, t) == spec_vested_amount(s, t));
        lemma_vested_at_most_total(s, t);
        if p.len() > 0 {
            assert(p.last() == times[p.len() - 1]);
            assert(times[p.len() - 1] <= times[times.len() - 1]);
            lemma_vested_monotone(s, p.last(), t);
        }
    }
}

/// The stored layout of a vesting schedule: the four addresses, the three
/// times, the two amounts, the revocable flag and the bump.
pub open spec fn spec_encode_vesting(s: VestingState) -> Seq<u8> {
    enc_key(s.beneficiary) + enc_key(s.admin) + enc_key(s.mint) + enc_key(s.escrow_ata)
        + enc_i64(s.start_time) + enc_i64(s.cliff_time) + enc_i64(s.end_time)
        + enc_u64(s.total_amount) + enc_u64(s.claimed_amount) + enc_bool(s.revocable)
        + enc_u8(s.vesting_bump)
}

/// Reading stored bytes back: exactly 170 bytes with a valid flag byte.
pub open spec fn spec_decode_vesting(b: Seq<u8>) -> Option<VestingState> {
    if b.len() != 170 {
        None
    } else {
        match dec_bool(b[168]) {
            None => None,
            Some(revocable) => Some(VestingState {
                beneficiary: seq_to_key(b.subrange(0, 32)),
                admin: seq_to_key(b.subrange(32, 64)),
                mint: seq_to_key(b.subrange(64, 96)),
                escrow_ata: seq_to_key(b.subrange(96, 128)),
                start_time: dec_i64(b.subrange(128, 136)),
                cliff_time: dec_i64(b.subrange(136, 144)),
                end_time: dec_i64(b.subrange(144, 152)),
                total_amount: dec_u64(b.subrange(152, 160)),
                claimed_amount: dec_u64(b.subrange(160, 168)),
                revocable,
                vesting_bump: b[169],
            }),
        }
    }
}

/// Reading back what was stored gives the same schedule.
pub proof fn lemma_vesting_decode_encode(s: VestingState)
    ensures
        spec_decode_vesting(spec_encode_vesting(s)) == Some(s),
{
    lemma_fixed_width_roundtrips();
    let b = spec_encode_vesting(s);
    assert(b.subrange(0, 32) =~= s.beneficiary@);
    assert(b.subrange(32, 64) =~= s.admin@);
    assert(b.subrange(64, 96) =~= s.mint@);
    assert(b.subrange(96, 128) =~= s.escrow_ata@);
    assert(b.subrange(128, 136) =~= enc_i64(s.start_time));
    assert(b.subrange(136, 144) =~= enc_i64(s.cliff_time));
    assert(b.subrange(144, 152) =~= enc_i64(s.end_time));
    assert(b.subrange(152, 160) =~= enc_u64(s.total_amount));
    assert(b.subrange(160, 168) =~= enc_u64(s.claimed_amount));
    lemma_key_from_bytes(s.beneficiary);
    lemma_key_from_bytes(s.admin);
    lemma_key_from_bytes(s.mint);
    lemma_key_from_bytes(s.escrow_ata);
}

/// Bytes that read as a schedule are exactly that schedule's layout.
pub proof fn lemma_vesting_encode_decode(b: Seq<u8>)
    requires
        spec_decode_vesting(b) is Some,
    ensures
        spec_encode_vesting(spec_decode_vesting(b).unwrap()) == b,
{
    lemma_fixed_width_roundtrips();
    let s = spec_decode_vesting(b).unwrap();
    lemma_seq_to_key(b.subrange(0, 32));
    lemma_seq_to_key(b.subrange(32, 64));
    lemma_seq_to_key(b.subrange(64, 96));
    lemma_seq_to_key(b.subrange(96, 128));
    assert(s.beneficiary@ == b.subrange(0, 32));
    assert(s.admin@ == b.subrange(32, 64));
    assert(s.mint@ == b.subrange(64, 96));
    assert(s.escrow_ata@ == b.subrange(96, 128));
    assert(enc_i64(s.start_time) == b.subrange(128, 136));
    assert(enc_i64(s.cliff_time) == b.subrange(136, 144));
    assert(enc_i64(s.end_time) == b.subrange(144, 152));
    assert(enc_u64(s.total_amount) == b.subrange(152, 160));
    assert(enc_u64(s.claimed_amount) == b.subrange(160, 168));
    assert(spec_encode_vesting(s) =~= b);
}

impl VestingState {
    /// The stored bytes of the schedule.
    pub fn to_bytes(&self) -> (r: Vec<u8>)
        ensures
            r@ == spec_encode_vesting(*self),
    {
        let mut out: Vec<u8> = Vec::new();
        push_key(&mut out, &self.beneficiary);
        push_key(&mut out, &self.admin);
        push_key(&mut out, &self.mint);
        push_key(&mut out, &self.escrow_ata);
        push_i64(&mut out, self.start_time);
        push_i64(&mut out, self.cliff_time);
        push_i64(&mut out, self.end_time);
        push_u64(&mut out, self.total_amount);
        push_u64(&mut out, self.claimed_amount);
        push_bool(&mut out, self.revocable);
        push_u8(&mut out, self.vesting_bump);
        assert(out@ =~= spec_encode_vesting(*self));
        out
    }

    /// Reads a schedule from account data, which must hold exactly one.
    pub fn try_from_slice(data: &[u8]) -> (r: Option<VestingState>)
        ensures
            r == spec_decode_vesting(data@),
    {
        if data.len() != 170 {
            return None;
        }
        let revocable = match read_bool(data, 168) {
            Some(b) => b,
            None => return None,
        };
        Some(VestingState {
            beneficiary: read_key(data, 0),
            admin: read_key(data, 32),
            mint: read_key(data, 64),
            escrow_ata: read_key(data, 96),
            start_time: read_i64(data, 128),
            cliff_time: read_i64(data, 136),
            end_time: read_i64(data, 144),
            total_amount: read_u64(data, 152),
            claimed_amount: read_u64(data, 160),
            revocable,
            vesting_bump: data[169],
        })
    }
}

} // verus!
