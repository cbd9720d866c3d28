//! Fixed-point arithmetic in "ray" units (27 decimals).

use vstd::prelude::*;

verus! {

/// One unit in ray fixed-point representation: 10^27.
pub const RAY: u128 = 1_000_000_000_000_000_000_000_000_000;

/// Seconds in a 365-day year.
pub const SECONDS_PER_YEAR: u128 = 31_536_000;

/// The product `a * b`, clamped to `u128::MAX`.
pub open spec fn saturated_product(a: u128, b: u128) -> int {
    if a * b > u128::MAX { u128::MAX as int } else { a * b }
}

/// `a * b` clamped at `u128::MAX`, as `u128::saturating_mul` computes it.
pub fn saturating_mul_u128(a: u128, b: u128) -> (r: u128)
    ensures
        r == saturated_product(a, b),
{
    match a.checked_mul(b) {
        Some(p) => p,
        None => u128::MAX,
    }
}

/// Ray multiplication rounds half up: `(a * b + RAY / 2) / RAY`, the
/// product being clamped before the rounding term is added.
pub open spec fn spec_ray_mul(a: u128, b: u128) -> int {
    (saturated_product(a, b) + RAY / 2) / (RAY as int)
}

/// `ray_mul` is defined when adding the rounding term to the clamped
/// product stays within `u128`.
pub open spec fn ray_mul_defined(a: u128, b: u128) -> bool {
    saturated_product(a, b) + RAY / 2 <= u128::MAX
}

/// Ray division rounds half up: `(a * RAY + b / 2) / b`.
pub open spec fn spec_ray_div(a: u128, b: u128) -> int {
    (saturated_product(a, RAY) + b / 2) / (b as int)
}

pub open spec fn ray_div_defined(a: u128, b: u128) -> bool {
    &&& b != 0
    &&& saturated_product(a, RAY) + b / 2 <= u128::MAX
}

/// Multiplies two ray values, rounding half up.
pub fn ray_mul(a: u128, b: u128) -> (r: u128)
    requires
        ray_mul_defined(a, b),
    ensures
        r == spec_ray_mul(a, b),
{
    (saturating_mul_u128(a, b) + RAY / 2) / RAY
}

/// Divides two ray values, rounding half up.
pub fn ray_div(a: u128, b: u128) -> (r: u128)
    requires
        ray_div_defined(a, b),
    ensures
        r == spec_ray_div(a, b),
{
    (saturating_mul_u128(a, RAY) + b / 2) / b
}

/// Whether `ray_mul(a, b)` is defined.
pub fn ray_mul_is_defined(a: u128, b: u128) -> (r: bool)
    ensures
        r == ray_mul_defined(a, b),
{
    saturating_mul_u128(a, b) <= u128::MAX - RAY / 2
}

/// Whether `ray_div(a, b)` is defined.
pub fn ray_div_is_defined(a: u128, b: u128) -> (r: bool)
    ensures
        r == ray_div_defined(a, b),
{
    b != 0 && saturating_mul_u128(a, RAY) <= u128::MAX - b / 2
}

/// Square-and-multiply exponentiation in ray units. `acc` is the running
/// result, `base` the current square and `exp` the remaining exponent;
/// `None` when one of the multiplications it performs is undefined.
/// Each step multiplies the result by the base when the low bit of the
/// exponent is set, then squares the base and halves the exponent.
pub open spec fn ray_pow_from(acc: u128, base: u128, exp: u64) -> Option<u128>
    decreases exp,
{
    if exp == 0 {
        Some(acc)
    } else {
        let odd = exp % 2 == 1;
        if odd && !ray_mul_defined(acc, base) {
            None
        } else if !ray_mul_defined(base, base) {
            None
        } else {
            let acc2: u128 = if odd { spec_ray_mul(acc, base) as u128 } else { acc };
            ray_pow_from(acc2, spec_ray_mul(base, base) as u128, exp / 2)
        }
    }
}

/// The ray power `base^exp` as computed by square-and-multiply from `RAY`.
pub open spec fn spec_ray_pow(base: u128, exp: u64) -> Option<u128> {
    ray_pow_from(RAY, base, exp)
}

proof fn lemma_ray_mul_bounded(a: u128, b: u128)
    requires
        ray_mul_defined(a, b),
    ensures
        0 <= spec_ray_mul(a, b) <= u128::MAX,
{
}

/// Raises a ray value to an integer power by binary exponentiation.
pub fn ray_pow(base: u128, exp: u64) -> (r: u128)
    requires
        spec_ray_pow(base, exp) is Some,
    ensures
        r == spec_ray_pow(base, exp).unwrap(),
{
    let mut base = base;
    let mut exp = exp;
    let mut result = RAY;
    let ghost target = spec_ray_pow(base, exp);
    while exp > 0
        invariant
            ray_pow_from(result, base, exp) == target,
            target is Some,
        decreases exp,
    {
        assert(exp & 1 == exp % 2) by (bit_vector);
        assert(exp >> 1 == exp / 2) by (bit_vector);
        if exp & 1 == 1 {
            proof { lemma_ray_mul_bounded(result, base); }
            result = ray_mul(result, base);
        }
        proof { lemma_ray_mul_bounded(base, base); }
        base = ray_mul(base, base);
        exp = exp >> 1;
    }
    result
}

/// The per-second rate in ray units of an annual rate in basis points:
/// `(bps * RAY / 10_000) / SECONDS_PER_YEAR`.
pub open spec fn spec_bps_per_year_to_sec_ray(bps_year: u16) -> int {
    (bps_year * RAY / 10_000) / (SECONDS_PER_YEAR as int)
}

/// Converts an annual rate in basis points to a per-second rate in ray.
pub fn bps_per_year_to_sec_ray(bps_year: u16) -> (r: u128)
    ensures
        r == spec_bps_per_year_to_sec_ray(bps_year),
{
    let seconds_per_year: u128 = SECONDS_PER_YEAR;
    assert(bps_year * RAY <= 65535 * RAY) by (nonlinear_arith)
        requires bps_year <= 65535;
    let annual_ray = (bps_year as u128) * RAY / 10_000u128;
    annual_ray / seconds_per_year
}


/// `RAY` is the unit of ray multiplication, on both sides, wherever the
/// product is defined.
pub proof fn lemma_ray_mul_identity(a: u128)
    requires
        ray_mul_defined(a, RAY),
    ensures
        spec_ray_mul(a, RAY) == a,
        spec_ray_mul(RAY, a) == a,
{
    assert(a * RAY == RAY * a) by (nonlinear_arith);
    assert(a * RAY <= u128::MAX) by (nonlinear_arith)
        requires
            (if a * RAY > u128::MAX { u128::MAX as int } else { a * RAY }) + RAY / 2 <= u128::MAX;
    assert((a * RAY + RAY / 2) / (RAY as int) == a) by (nonlinear_arith)
        requires
            RAY == 1_000_000_000_000_000_000_000_000_000u128,
            a >= 0;
}

/// Ray multiplication does not depend on the order of its operands, nor
/// does whether it is defined.
pub proof fn lemma_ray_mul_commutative(a: u128, b: u128)
    ensures
        spec_ray_mul(a, b) == spec_ray_mul(b, a),
        ray_mul_defined(a, b) == ray_mul_defined(b, a),
{
    assert(a * b == b * a) by (nonlinear_arith);
}

/// Dividing by `RAY` in ray units gives the value back.
pub proof fn lemma_ray_div_by_ray(a: u128)
    requires
        ray_div_defined(a, RAY),
    ensures
        spec_ray_div(a, RAY) == a,
{
    assert(a * RAY <= u128::MAX) by (nonlinear_arith)
        requires
            (if a * RAY > u128::MAX { u128::MAX as int } else { a * RAY }) + RAY / 2 <= u128::MAX;
    assert((a * RAY + RAY / 2) / (RAY as int) == a) by (nonlinear_arith)
        requires
            RAY == 1_000_000_000_000_000_000_000_000_000u128,
            a >= 0;
}

/// A non-zero value divided by itself is one ray.
pub proof fn lemma_ray_div_self(a: u128)
    requires
        ray_div_defined(a, a),
    ensures
        spec_ray_div(a, a) == RAY,
{
    assert(a * RAY <= u128::MAX) by (nonlinear_arith)
        requires
            a >= 1,
            (if a * RAY > u128::MAX { u128::MAX as int } else { a * RAY }) + a / 2 <= u128::MAX;
    assert((a * RAY + a / 2) / (a as int) == RAY) by (nonlinear_arith)
        requires
            a >= 1,
            RAY == 1_000_000_000_000_000_000_000_000_000u128;
}

/// Any base to the power zero is one ray.
pub proof fn lemma_ray_pow_zero(base: u128)
    ensures
        spec_ray_pow(base, 0) == Some(RAY),
{
}

/// A base to the power one is the base itself, wherever the power is defined.
pub proof fn lemma_ray_pow_one(base: u128)
    requires
        spec_ray_pow(base, 1) is Some,
    ensures
        spec_ray_pow(base, 1) == Some(base),
{
    assert(ray_pow_from(RAY, base, 1) == ray_pow_from(spec_ray_mul(RAY, base) as u128, spec_ray_mul(base, base) as u128, 0));
    lemma_ray_mul_commutative(RAY, base);
    lemma_ray_mul_identity(base);
}

/// Squaring the base halves an even exponent: the power of `base` to
/// `2 * k` is the power of `ray_mul(base, base)` to `k`. Where the square
/// itself cannot be computed, neither can the power.
pub proof fn lemma_ray_pow_square_halves(base: u128, k: u64)
    requires
        1 <= k <= u64::MAX / 2,
    ensures
        ray_mul_defined(base, base) ==> spec_ray_pow(base, (2 * k) as u64) == spec_ray_pow(spec_ray_mul(base, base) as u128, k),
        !ray_mul_defined(base, base) ==> spec_ray_pow(base, (2 * k) as u64) is None,
{
    let e = (2 * k) as u64;
    assert(e != 0 && e % 2 == 0 && e / 2 == k);
}

/// Division rounds down: the quotient times the divisor is within one
/// divisor below the dividend.
pub proof fn lemma_floor_division(p: int, d: int)
    requires
        0 <= p,
        0 < d,
    ensures
        (p / d) * d <= p < (p / d + 1) * d,
        0 <= p / d,
{
    vstd::arithmetic::div_mod::lemma_fundamental_div_mod(p, d);
    vstd::arithmetic::div_mod::lemma_mod_bound(p, d);
    vstd::arithmetic::div_mod::lemma_div_pos_is_pos(p, d);
    assert((p / d) * d == d * (p / d)) by (nonlinear_arith);
    assert((p / d + 1) * d == d * (p / d) + d) by (nonlinear_arith);
}

/// A token amount in ray units, clamped at `u128::MAX` as the saturating
/// multiplication clamps it.
pub open spec fn in_ray_units(amount: u64) -> int {
    if amount * RAY <= u128::MAX { amount * RAY } else { u128::MAX as int }
}

/// `q` is `p / d` rounded down: `d * q <= p < d * (q + 1)`.
pub open spec fn is_floor_quotient(p: int, d: int, q: int) -> bool {
    d * q <= p < d * (q + 1)
}

/// The scaled amount of a token amount against an index is the token
/// amount in ray units (clamped at `u128::MAX`, as the multiplication
/// saturates) divided by the index, rounded down, for every non-zero index.
pub proof fn lemma_scaled_amount_is_floor(amount: u64, index: u128)
    requires
        index != 0,
    ensures
        is_floor_quotient(in_ray_units(amount), index as int, saturated_product(amount as u128, RAY) / (index as int)),
{
    let p = saturated_product(amount as u128, RAY);
    lemma_floor_division(p, index as int);
    let q = p / (index as int);
    assert(q * index == index * q) by (nonlinear_arith);
    assert((q + 1) * index == index * (q + 1)) by (nonlinear_arith);
}

/// A higher annual rate never gives a lower per-second rate.
pub proof fn lemma_sec_rate_monotone(low: u16, high: u16)
    requires
        low <= high,
    ensures
        spec_bps_per_year_to_sec_ray(low) <= spec_bps_per_year_to_sec_ray(high),
{
    assert(low * RAY <= high * RAY) by (nonlinear_arith)
        requires
            low <= high;
    assert(low * RAY / 10_000 <= high * RAY / 10_000) by (nonlinear_arith)
        requires
            low * RAY <= high * RAY;
    assert((low * RAY / 10_000) / (SECONDS_PER_YEAR as int) <= (high * RAY / 10_000) / (SECONDS_PER_YEAR as int)) by (nonlinear_arith)
        requires
            low * RAY / 10_000 <= high * RAY / 10_000,
            SECONDS_PER_YEAR == 31_536_000u128;
}

} // verus!
