//! Fixed-width unsigned integers exchanged with the chain layer: 256-bit
//! values (`U256`) and 160-bit account identifiers (`Address`), together with
//! the exact arithmetic the eligibility predicates need.

use vstd::prelude::*;

verus! {

/// 2^64, as a mathematical integer.
pub open spec fn pow64() -> nat {
    0x1_0000_0000_0000_0000nat
}

/// 2^128, as a mathematical integer.
pub open spec fn pow128() -> nat {
    0x1_0000_0000_0000_0000_0000_0000_0000_0000nat
}

/// 2^256, as a mathematical integer.
pub open spec fn pow256() -> nat {
    pow128() * pow128()
}

/// A 256-bit unsigned integer, stored as two 128-bit halves.
#[derive(Clone, Copy, PartialEq, Eq, Structural, Debug, Hash)]
pub struct U256 {
    /// Least significant 128 bits.
    pub lo: u128,
    /// Most significant 128 bits.
    pub hi: u128,
}

/// A 160-bit account identifier, stored as a low 128-bit half and a high
/// 32-bit half, so every representable value is a valid address.
#[derive(Clone, Copy, PartialEq, Eq, Structural, Debug, Hash)]
pub struct Address {
    /// Least significant 128 bits.
    pub lo: u128,
    /// Most significant 32 bits.
    pub hi: u32,
}

impl U256 {
    /// The mathematical value of this 256-bit integer.
    pub open spec fn as_nat(self) -> nat {
        self.hi as nat * pow128() + self.lo as nat
    }

    /// The zero value.
    pub fn zero() -> (r: U256)
        ensures
            r.as_nat() == 0,
    {
        U256 { lo: 0, hi: 0 }
    }

    /// Embed a 64-bit value.
    pub fn from_u64(x: u64) -> (r: U256)
        ensures
            r.as_nat() == x,
    {
        U256 { lo: x as u128, hi: 0 }
    }

    /// Assemble a value from four 64-bit limbs, least significant first.
    pub fn from_limbs(l0: u64, l1: u64, l2: u64, l3: u64) -> (r: U256)
        ensures
            r.as_nat() == l0 + l1 * pow64() + l2 * pow128() + l3 * (pow64() * pow128()),
    {
        let lo: u128 = (l0 as u128) | ((l1 as u128) << 64);
        let hi: u128 = (l2 as u128) | ((l3 as u128) << 64);
        proof {
            assert(lo == l0 + l1 * 0x1_0000_0000_0000_0000u128) by (bit_vector)
                requires
                    lo == (l0 as u128) | ((l1 as u128) << 64),
            ;
            assert(hi == l2 + l3 * 0x1_0000_0000_0000_0000u128) by (bit_vector)
                requires
                    hi == (l2 as u128) | ((l3 as u128) << 64),
            ;
            assert(pow64() * pow128()
                == 0x1_0000_0000_0000_0000_0000_0000_0000_0000_0000_0000_0000_0000nat);
        }
        U256 { lo, hi }
    }

    /// True when this value is zero.
    pub fn is_zero(&self) -> (r: bool)
        ensures
            r == (self.as_nat() == 0),
    {
        self.lo == 0 && self.hi == 0
    }

    /// Exact comparison: strictly less than.
    pub fn lt(&self, other: &U256) -> (r: bool)
        ensures
            r == (self.as_nat() < other.as_nat()),
    {
        self.hi < other.hi || (self.hi == other.hi && self.lo < other.lo)
    }

    /// Exact comparison: strictly greater than.
    pub fn gt(&self, other: &U256) -> (r: bool)
        ensures
            r == (self.as_nat() > other.as_nat()),
    {
        other.lt(self)
    }

    /// Whether this value exceeds `other + margin`, computed over the full
    /// 256-bit width (no narrowing to 64 bits, no wrap-around).
    pub fn exceeds_by_more_than(&self, other: &U256, margin: u128) -> (r: bool)
        ensures
            r == (self.as_nat() > other.as_nat() + margin),
    {
        if other.lo <= u128::MAX - margin {
            let bound = U256 { lo: other.lo + margin, hi: other.hi };
            self.gt(&bound)
        } else if other.hi == u128::MAX {
            // other + margin does not fit in 256 bits, so no value exceeds it.
            false
        } else {
            let bound = U256 { lo: other.lo - (u128::MAX - margin) - 1, hi: other.hi + 1 };
            assert(bound.as_nat() == other.as_nat() + margin);
            self.gt(&bound)
        }
    }

    /// Whether this value is at most `limit` (a 64-bit bound).
    pub fn le_u64(&self, limit: u64) -> (r: bool)
        ensures
            r == (self.as_nat() <= limit),
    {
        self.hi == 0 && self.lo <= limit as u128
    }
}

impl Address {
    /// The mathematical value of this 160-bit identifier.
    pub open spec fn as_nat(self) -> nat {
        self.hi as nat * pow128() + self.lo as nat
    }
}

/// 2^384, as a mathematical integer.
pub open spec fn pow384() -> nat {
    0x1_0000_0000_0000_0000_0000_0000_0000_0000_0000_0000_0000_0000_0000_0000_0000_0000_0000_0000_0000_0000_0000_0000_0000_0000nat
}

/// A 512-bit unsigned integer: the exact product of two `U256` values,
/// stored as four 128-bit limbs, least significant first.
#[derive(Clone, Copy, PartialEq, Eq, Structural, Debug)]
pub struct U512 {
    pub w0: u128,
    pub w1: u128,
    pub w2: u128,
    pub w3: u128,
}

impl U512 {
    /// The mathematical value of this 512-bit integer.
    pub open spec fn as_nat(self) -> nat {
        self.w0 as nat + self.w1 as nat * pow128() + self.w2 as nat * pow256()
            + self.w3 as nat * pow384()
    }

    /// Exact comparison: strictly greater than.
    pub fn gt(&self, other: &U512) -> (r: bool)
        ensures
            r == (self.as_nat() > other.as_nat()),
    {
        proof {
            assert(pow256() == pow128() * pow128());
        }
        if self.w3 != other.w3 {
            self.w3 > other.w3
        } else if self.w2 != other.w2 {
            self.w2 > other.w2
        } else if self.w1 != other.w1 {
            self.w1 > other.w1
        } else {
            self.w0 > other.w0
        }
    }
}

/// Full 256-bit product of two 128-bit values, returned as (low, high)
/// 128-bit halves.
fn mul_wide_u128(a: u128, b: u128) -> (r: (u128, u128))
    ensures
        r.0 as nat + r.1 as nat * pow128() == a * b,
{
    let a1: u128 = a / 0x1_0000_0000_0000_0000u128;
    let a0: u128 = a % 0x1_0000_0000_0000_0000u128;
    let b1: u128 = b / 0x1_0000_0000_0000_0000u128;
    let b0: u128 = b % 0x1_0000_0000_0000_0000u128;
    proof {
        assert(a0 < 0x1_0000_0000_0000_0000 && a1 < 0x1_0000_0000_0000_0000 && b0
            < 0x1_0000_0000_0000_0000 && b1 < 0x1_0000_0000_0000_0000);
        vstd::arithmetic::mul::lemma_mul_upper_bound(
            a0 as int,
            0xffff_ffff_ffff_ffff,
            b0 as int,
            0xffff_ffff_ffff_ffff,
        );
        vstd::arithmetic::mul::lemma_mul_upper_bound(
            a0 as int,
            0xffff_ffff_ffff_ffff,
            b1 as int,
            0xffff_ffff_ffff_ffff,
        );
        vstd::arithmetic::mul::lemma_mul_upper_bound(
            a1 as int,
            0xffff_ffff_ffff_ffff,
            b0 as int,
            0xffff_ffff_ffff_ffff,
        );
        vstd::arithmetic::mul::lemma_mul_upper_bound(
            a1 as int,
            0xffff_ffff_ffff_ffff,
            b1 as int,
            0xffff_ffff_ffff_ffff,
        );
    }
    let p00: u128 = a0 * b0;
    let p01: u128 = a0 * b1;
    let p10: u128 = a1 * b0;
    let p11: u128 = a1 * b1;
    // Column sums at each 64-bit position, with carry propagation.
    let k0: u128 = p00 / 0x1_0000_0000_0000_0000u128;
    let c0: u128 = p00 % 0x1_0000_0000_0000_0000u128;
    let s1: u128 = k0 + p01 % 0x1_0000_0000_0000_0000u128 + p10 % 0x1_0000_0000_0000_0000u128;
    let k1: u128 = s1 / 0x1_0000_0000_0000_0000u128;
    let c1: u128 = s1 % 0x1_0000_0000_0000_0000u128;
    let s2: u128 = k1 + p01 / 0x1_0000_0000_0000_0000u128 + p10 / 0x1_0000_0000_0000_0000u128
        + p11 % 0x1_0000_0000_0000_0000u128;
    let k2: u128 = s2 / 0x1_0000_0000_0000_0000u128;
    let c2: u128 = s2 % 0x1_0000_0000_0000_0000u128;
    let s3: u128 = k2 + p11 / 0x1_0000_0000_0000_0000u128;
    proof {
        assert(a * b == p11 * 0x1_0000_0000_0000_0000_0000_0000_0000_0000int + (p01 + p10)
            * 0x1_0000_0000_0000_0000 + p00) by (nonlinear_arith)
            requires
                a == a1 * 0x1_0000_0000_0000_0000 + a0,
                b == b1 * 0x1_0000_0000_0000_0000 + b0,
                p00 == a0 * b0,
                p01 == a0 * b1,
                p10 == a1 * b0,
                p11 == a1 * b1,
        ;
        // Rebuild the product from the carry-propagated columns.
        assert(a * b == c0 + c1 * 0x1_0000_0000_0000_0000 + c2
            * 0x1_0000_0000_0000_0000_0000_0000_0000_0000int + s3
            * 0x1_0000_0000_0000_0000_0000_0000_0000_0000_0000_0000_0000_0000int);
        vstd::arithmetic::mul::lemma_mul_upper_bound(
            a as int,
            u128::MAX as int,
            b as int,
            u128::MAX as int,
        );
        assert(s3 < 0x1_0000_0000_0000_0000);
    }
    let lo: u128 = c0 + c1 * 0x1_0000_0000_0000_0000u128;
    let hi: u128 = c2 + s3 * 0x1_0000_0000_0000_0000u128;
    (lo, hi)
}

/// 128-bit addition with an explicit carry-out.
fn add_with_carry(x: u128, y: u128) -> (r: (u128, bool))
    ensures
        r.0 as nat + (if r.1 {
            pow128()
        } else {
            0nat
        }) == x + y,
{
    if x <= u128::MAX - y {
        (x + y, false)
    } else {
        (x - (u128::MAX - y) - 1, true)
    }
}

impl U256 {
    /// The exact 512-bit product of two 256-bit values.
    pub fn mul_wide(&self, other: &U256) -> (r: U512)
        ensures
            r.as_nat() == self.as_nat() * other.as_nat(),
    {
        let (l0, h0) = mul_wide_u128(self.lo, other.lo);
        let (l1, h1) = mul_wide_u128(self.lo, other.hi);
        let (l2, h2) = mul_wide_u128(self.hi, other.lo);
        let (l3, h3) = mul_wide_u128(self.hi, other.hi);
        let w0: u128 = l0;
        let (t1, ca) = add_with_carry(h0, l1);
        let (w1, cb) = add_with_carry(t1, l2);
        let carry1: u128 = (if ca {
            1u128
        } else {
            0u128
        }) + (if cb {
            1u128
        } else {
            0u128
        });
        let (t2, cc) = add_with_carry(h1, h2);
        let (t3, cd) = add_with_carry(t2, l3);
        let (w2, ce) = add_with_carry(t3, carry1);
        let carry2: u128 = (if cc {
            1u128
        } else {
            0u128
        }) + (if cd {
            1u128
        } else {
            0u128
        }) + (if ce {
            1u128
        } else {
            0u128
        });
        proof {
            assert(self.as_nat() * other.as_nat() == (self.hi * other.hi)
                * 0x1_0000_0000_0000_0000_0000_0000_0000_0000_0000_0000_0000_0000_0000_0000_0000_0000int
                + (self.lo * other.hi + self.hi * other.lo)
                * 0x1_0000_0000_0000_0000_0000_0000_0000_0000int + self.lo * other.lo)
                by (nonlinear_arith)
                requires
                    self.as_nat() == self.hi as nat * 0x1_0000_0000_0000_0000_0000_0000_0000_0000int
                        + self.lo as nat,
                    other.as_nat() == other.hi as nat * 0x1_0000_0000_0000_0000_0000_0000_0000_0000int
                        + other.lo as nat,
            ;
            // Each partial product in terms of its halves, then the columns in
            // terms of the carry-propagated limbs.
            assert(self.as_nat() * other.as_nat() == w0 + w1
                * 0x1_0000_0000_0000_0000_0000_0000_0000_0000int + (h1 + h2 + l3 + carry1)
                * 0x1_0000_0000_0000_0000_0000_0000_0000_0000_0000_0000_0000_0000_0000_0000_0000_0000int
                + h3
                * 0x1_0000_0000_0000_0000_0000_0000_0000_0000_0000_0000_0000_0000_0000_0000_0000_0000_0000_0000_0000_0000_0000_0000_0000_0000int);
            vstd::arithmetic::mul::lemma_mul_upper_bound(
                self.as_nat() as int,
                0xffff_ffff_ffff_ffff_ffff_ffff_ffff_ffff_ffff_ffff_ffff_ffff_ffff_ffff_ffff_ffffint,
                other.as_nat() as int,
                0xffff_ffff_ffff_ffff_ffff_ffff_ffff_ffff_ffff_ffff_ffff_ffff_ffff_ffff_ffff_ffffint,
            );
            assert(h3 + carry2 < 0x1_0000_0000_0000_0000_0000_0000_0000_0000int);
            assert(w2 + carry2 * 0x1_0000_0000_0000_0000_0000_0000_0000_0000int == h1 + h2 + l3
                + carry1);
            assert(pow256()
                == 0x1_0000_0000_0000_0000_0000_0000_0000_0000_0000_0000_0000_0000_0000_0000_0000_0000int);
            assert(self.as_nat() * other.as_nat() == w0 + w1
                * 0x1_0000_0000_0000_0000_0000_0000_0000_0000int + w2
                * 0x1_0000_0000_0000_0000_0000_0000_0000_0000_0000_0000_0000_0000_0000_0000_0000_0000int
                + (h3 + carry2)
                * 0x1_0000_0000_0000_0000_0000_0000_0000_0000_0000_0000_0000_0000_0000_0000_0000_0000_0000_0000_0000_0000_0000_0000_0000_0000int);
        }
        let w3: u128 = h3 + carry2;
        U512 { w0, w1, w2, w3 }
    }
}

} // verus!
