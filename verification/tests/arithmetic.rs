use pos::num::U256;
use pos::num::U512;

fn u(x: u64) -> U256 {
    U256 { lo: x as u128, hi: 0 }
}

#[test]
fn small_product_is_exact() {
    let r = u(1_000_000_007).mul_wide(&u(998_244_353));
    assert_eq!(
        r,
        U512 { w0: 1_000_000_007u128 * 998_244_353u128, w1: 0, w2: 0, w3: 0 }
    );
}

#[test]
fn squaring_max_u128_half_is_exact() {
    // (2^128 - 1)^2 = 2^256 - 2^129 + 1.
    let m = U256 { lo: u128::MAX, hi: 0 };
    let r = m.mul_wide(&m);
    assert_eq!(r, U512 { w0: 1, w1: u128::MAX - 1, w2: 0, w3: 0 });
}

#[test]
fn wide_product_is_exact() {
    let a = U256 {
        lo: 0xfedcba0987654321fedcba0987654321,
        hi: 0x1234567890abcdef1234567890abcdef,
    };
    let b = U256 { lo: 3, hi: 2 };
    let r = a.mul_wide(&b);
    assert_eq!(
        r,
        U512 {
            w0: 0xfc962e1c962fc965fc962e1c962fc963,
            w1: 0x3456777cc0cdf0113456777cc0cdf011,
            w2: 0x2468acf121579bde2468acf121579be0,
            w3: 0,
        }
    );
}

#[test]
fn wide_comparison_is_strict() {
    let a = U256 { lo: 5, hi: 1 };
    let one = U256 { lo: 1, hi: 0 };
    let p = a.mul_wide(&one);
    assert!(!p.gt(&p));
    let q = a.mul_wide(&U256 { lo: 2, hi: 0 });
    assert!(q.gt(&p));
    assert!(!p.gt(&q));
}

#[test]
fn exceeds_by_more_than_handles_carry() {
    let other = U256 { lo: u128::MAX, hi: 0 };
    let just_above = U256 { lo: 220, hi: 1 };
    let exactly = U256 { lo: 219, hi: 1 };
    assert!(just_above.exceeds_by_more_than(&other, 220));
    assert!(!exactly.exceeds_by_more_than(&other, 220));
    // No 256-bit value exceeds MAX + margin.
    let max = U256 { lo: u128::MAX, hi: u128::MAX };
    assert!(!max.exceeds_by_more_than(&max, 1));
}

#[test]
fn from_limbs_orders_least_significant_first() {
    let r = U256::from_limbs(1, 2, 3, 4);
    assert_eq!(r.lo, 1u128 | (2u128 << 64));
    assert_eq!(r.hi, 3u128 | (4u128 << 64));
    assert_eq!(U256::from_u64(9), u(9));
    assert!(U256::zero().is_zero());
}

#[test]
fn comparisons_are_exact() {
    let small = U256 { lo: u128::MAX, hi: 0 };
    let big = U256 { lo: 0, hi: 1 };
    assert!(small.lt(&big));
    assert!(big.gt(&small));
    assert!(!big.lt(&small));
    assert!(!small.lt(&small));
    assert!(small.le_u64(u64::MAX) == false);
    assert!(u(123).le_u64(123));
    assert!(!u(124).le_u64(123));
}
