use solana_programs::solend::math::{bps_per_year_to_sec_ray, ray_div, ray_mul, ray_pow, RAY};

#[test]
fn ray_mul_rounds_half_up() {
    assert_eq!(ray_mul(3, 4), 0);
    assert_eq!(ray_mul(RAY / 2, 1), 1);
    assert_eq!(ray_mul(2 * RAY, 3), 6);
}

#[test]
fn ray_is_the_unit_of_ray_mul() {
    for a in [0u128, 1, 5, 123_456_789, 300_000_000_000] {
        assert_eq!(ray_mul(a, RAY), a);
        assert_eq!(ray_mul(RAY, a), a);
    }
}

#[test]
fn ray_mul_is_commutative() {
    assert_eq!(ray_mul(7 * RAY, 11), ray_mul(11, 7 * RAY));
    assert_eq!(ray_mul(RAY / 3, 2), ray_mul(2, RAY / 3));
}

#[test]
fn ray_div_rounds_half_up() {
    assert_eq!(ray_div(6, 3), 2 * RAY);
    assert_eq!(ray_div(1, 3), 333_333_333_333_333_333_333_333_333);
    assert_eq!(ray_div(2, 3), 666_666_666_666_666_666_666_666_667);
}

#[test]
fn dividing_by_ray_and_by_itself() {
    for a in [1u128, 9, 1_000_000, 300_000_000_000] {
        assert_eq!(ray_div(a, RAY), a);
        assert_eq!(ray_div(a, a), RAY);
    }
}

#[test]
fn ray_pow_small_exponents() {
    assert_eq!(ray_pow(5, 0), RAY);
    assert_eq!(ray_pow(0, 0), RAY);
    assert_eq!(ray_pow(5, 1), 5);
    assert_eq!(ray_pow(0, 3), 0);
}

#[test]
fn annual_rate_to_per_second_rate() {
    assert_eq!(bps_per_year_to_sec_ray(0), 0);
    assert_eq!(bps_per_year_to_sec_ray(500), 1_585_489_599_188_229_325);
    assert_eq!(bps_per_year_to_sec_ray(10_000), 31_709_791_983_764_586_504);
    assert_eq!(bps_per_year_to_sec_ray(u16::MAX), 207_810_121_765_601_217_656);
    assert!(bps_per_year_to_sec_ray(499) <= bps_per_year_to_sec_ray(500));
}

#[test]
fn squaring_the_base_halves_the_exponent() {
    let base = RAY + RAY / 2;
    for k in 1..6u64 {
        assert_eq!(ray_pow(base, 2 * k), ray_pow(ray_mul(base, base), k));
    }
    let small = RAY / 3;
    assert_eq!(ray_pow(small, 4), ray_pow(ray_mul(small, small), 2));
}
