//! Exact integer model of rounding a natural number to the 24-bit
//! significand of an IEEE-754 single, round-to-nearest, ties-to-even.
//!
//! The generator's `index` draws a fraction `k / 2^24` and scales it by a
//! length the way single-precision arithmetic does; this module computes the
//! same value with integers only.

use vstd::arithmetic::div_mod::{lemma_fundamental_div_mod, lemma_mod_bound};
use vstd::arithmetic::power2::{
    lemma_pow2_adds, lemma_pow2_pos, lemma_pow2_strictly_increases, lemma_pow2_unfold, pow2,
};
use vstd::prelude::*;

verus! {

/// Number of significand bits of a single-precision value (hidden bit included).
pub const SIGNIFICAND_BITS: u64 = 24;

/// `2^24`, the first natural number that needs more than 24 significant bits.
pub open spec fn significand_limit() -> nat {
    0x1000000
}

/// Number of binary digits of `m` (0 for 0).
pub open spec fn bit_length(m: nat) -> nat
    decreases m,
{
    if m == 0 {
        0
    } else {
        1 + bit_length(m / 2)
    }
}

/// The power of two that is the spacing of representable values around `m`
/// once `m` needs more than 24 significant bits.
pub open spec fn rounding_unit(m: nat) -> nat {
    if m < significand_limit() {
        1
    } else {
        pow2((bit_length(m) - 24) as nat)
    }
}

/// `m` rounded to 24 significant bits, to nearest, ties to even.
pub open spec fn round_to_significand(m: nat) -> nat {
    let d = rounding_unit(m);
    let q = m / d;
    let r = m % d;
    if 2 * r > d || (2 * r == d && q % 2 == 1) {
        (q + 1) * d
    } else {
        q * d
    }
}

/// `pow2(bit_length(m) - 1) <= m < pow2(bit_length(m))` for positive `m`.
pub proof fn lemma_bit_length_bounds(m: nat)
    requires
        m > 0,
    ensures
        bit_length(m) >= 1,
        pow2((bit_length(m) - 1) as nat) <= m,
        m < pow2(bit_length(m)),
    decreases m,
{
    if m == 1 {
        assert(bit_length(0) == 0);
        assert(bit_length(1) == 1);
        vstd::arithmetic::power2::lemma2_to64();
    } else {
        let h = m / 2;
        lemma_bit_length_bounds(h);
        let b = bit_length(h);
        assert(bit_length(m) == b + 1);
        lemma_pow2_unfold(b);
        lemma_pow2_unfold((b + 1) as nat);
        assert(((b + 1) - 1) as nat == b);
        if b >= 1 {
            lemma_pow2_unfold(b);
            assert(pow2(b) == 2 * pow2((b - 1) as nat));
        }
    }
}

/// The bit length is the unique `e` with `2^(e-1) <= m < 2^e`.
pub proof fn lemma_bit_length_unique(m: nat, e: nat)
    requires
        e >= 1,
        pow2((e - 1) as nat) <= m,
        m < pow2(e),
    ensures
        bit_length(m) == e,
{
    lemma_pow2_pos((e - 1) as nat);
    lemma_bit_length_bounds(m);
    let b = bit_length(m);
    if b < e {
        if b <= (e - 1) as nat {
            if b < (e - 1) as nat {
                lemma_pow2_strictly_increases(b, (e - 1) as nat);
            }
        }
    } else if b > e {
        if e < (b - 1) as nat {
            lemma_pow2_strictly_increases(e, (b - 1) as nat);
        }
    }
}

/// Facts about the rounding unit of a value that needs more than 24 bits.
pub proof fn lemma_rounding_unit_large(m: nat)
    requires
        m >= significand_limit(),
    ensures
        bit_length(m) >= 25,
        rounding_unit(m) == pow2((bit_length(m) - 24) as nat),
        rounding_unit(m) * significand_limit() / 2 <= m,
        m < rounding_unit(m) * significand_limit(),
        rounding_unit(m) >= 2,
{
    lemma_bit_length_bounds(m);
    let b = bit_length(m);
    vstd::arithmetic::power2::lemma2_to64();
    if b < 25 {
        if b < 24 {
            lemma_pow2_strictly_increases(b, 24);
        }
        assert(m < pow2(24));
        assert(false);
    }
    let s = (b - 24) as nat;
    lemma_pow2_adds(s, 24);
    lemma_pow2_adds(s, 23);
    assert((s + 24) as nat == b);
    assert((s + 23) as nat == (b - 1) as nat);
    assert(pow2(24) == 0x1000000);
    assert(pow2(23) == 0x800000);
    lemma_pow2_pos(s);
    if s == 0 {
        assert(b == 24);
        assert(false);
    } else {
        lemma_pow2_unfold(s);
        lemma_pow2_pos((s - 1) as nat);
    }
}

/// Rounding moves a value up by at most half a unit: `2 * round(m) <= 2 * m + unit`.
pub proof fn lemma_round_upper(m: nat)
    ensures
        2 * round_to_significand(m) <= 2 * m + rounding_unit(m),
        round_to_significand(m) <= m + rounding_unit(m),
{
    let d = rounding_unit(m);
    if m >= significand_limit() {
        lemma_rounding_unit_large(m);
    }
    assert(d > 0);
    lemma_fundamental_div_mod(m as int, d as int);
    lemma_mod_bound(m as int, d as int);
    let q = m / d;
    let r = m % d;
    assert(m == d * q + r);
    assert((q + 1) * d == q * d + d) by (nonlinear_arith);
    assert(q * d == d * q) by (nonlinear_arith);
}

/// Values that already fit 24 bits are unchanged.
pub proof fn lemma_round_small(m: nat)
    requires
        m <= significand_limit(),
    ensures
        round_to_significand(m) == m,
{
    if m == significand_limit() {
        vstd::arithmetic::power2::lemma2_to64();
        lemma_bit_length_unique(m, 25);
        assert(rounding_unit(m) == pow2(1));
        assert(m % 2 == 0);
    }
}

/// The rounding unit is a power of two, `2^(bit_length(m) - 24)` once `m`
/// needs more than 24 bits, and `m` lies below `2^24` units.
pub proof fn lemma_unit_exponent(m: nat) -> (t: nat)
    ensures
        rounding_unit(m) == pow2(t),
        m < pow2(t + 24),
{
    vstd::arithmetic::power2::lemma2_to64();
    if m < significand_limit() {
        assert(pow2(0) == 1);
        0
    } else {
        lemma_rounding_unit_large(m);
        lemma_bit_length_bounds(m);
        let t = (bit_length(m) - 24) as nat;
        assert((t + 24) as nat == bit_length(m));
        t
    }
}

/// A value below `2^e` (with `e >= 24`) has a rounding unit of at most
/// `2^(e - 24)`, a power of two `2^t` with `t <= e - 24`.
pub proof fn lemma_unit_below(m: nat, e: nat) -> (t: nat)
    requires
        e >= 24,
        m < pow2(e),
    ensures
        rounding_unit(m) == pow2(t),
        t + 24 <= e,
{
    vstd::arithmetic::power2::lemma2_to64();
    if m < significand_limit() {
        assert(pow2(0) == 1);
        0
    } else {
        lemma_rounding_unit_large(m);
        lemma_bit_length_bounds(m);
        let b = bit_length(m);
        if b > e {
            if e < (b - 1) as nat {
                lemma_pow2_strictly_increases(e, (b - 1) as nat);
            }
            assert(false);
        }
        (b - 24) as nat
    }
}

/// A multiple `n` of the unit lying more than half a unit above `m` is
/// not passed by rounding.
pub proof fn lemma_round_at_most(m: nat, n: nat)
    requires
        n % rounding_unit(m) == 0,
        2 * m < 2 * n + rounding_unit(m),
    ensures
        round_to_significand(m) <= n,
{
    let d = rounding_unit(m);
    if m >= significand_limit() {
        lemma_rounding_unit_large(m);
    }
    assert(d > 0);
    lemma_fundamental_div_mod(m as int, d as int);
    lemma_mod_bound(m as int, d as int);
    lemma_fundamental_div_mod(n as int, d as int);
    let q = m / d;
    let r = m % d;
    let c = n / d;
    assert(m == d * q + r);
    assert(n == d * c);
    if q > c {
        assert(d * q >= d * c + d) by (nonlinear_arith)
            requires
                q >= c + 1,
                d > 0,
        ;
        assert(false);
    }
    if q < c {
        assert((q + 1) * d <= c * d) by (nonlinear_arith)
            requires
                q + 1 <= c,
                d > 0,
        ;
        assert(q * d <= (q + 1) * d) by (nonlinear_arith)
            requires
                d > 0,
        ;
        assert(c * d == d * c) by (nonlinear_arith);
    } else {
        assert(q == c);
        assert(2 * r < d);
        assert(q * d == d * q) by (nonlinear_arith);
    }
}

/// A value that is a whole number of units is its own rounding.
pub proof fn lemma_round_exact(m: nat)
    requires
        m % rounding_unit(m) == 0,
    ensures
        round_to_significand(m) == m,
{
    let d = rounding_unit(m);
    if m >= significand_limit() {
        lemma_rounding_unit_large(m);
    }
    lemma_fundamental_div_mod(m as int, d as int);
    let q = m / d;
    assert(q * d == d * q) by (nonlinear_arith);
}

/// Computes `round_to_significand(m)`.
pub fn round_significand(m: u128) -> (r: u128)
    requires
        m < 0x1_0000_0000_0000_0000_0000_0000,
    ensures
        r == round_to_significand(m as nat),
{
    if m < 0x1000000 {
        return m;
    }
    let mut d: u128 = 1;
    let ghost mut s: nat = 0;
    proof {
        vstd::arithmetic::power2::lemma2_to64();
    }
    while m / d >= 0x1000000
        invariant
            d == pow2(s),
            1 <= d <= m,
            m >= 0x1000000,
            m < 0x1_0000_0000_0000_0000_0000_0000,
            s == 0 || m / (d / 2) >= 0x1000000,
            s > 0 ==> d == 2 * pow2((s - 1) as nat),
        decreases m - d,
    {
        proof {
            lemma_fundamental_div_mod(m as int, d as int);
            assert(d * 2 <= m) by (nonlinear_arith)
                requires
                    m / d >= 0x1000000,
                    m == d * (m / d) + m % d,
                    m % d >= 0,
                    d >= 1,
            ;
            lemma_pow2_unfold(s + 1);
        }
        d = d * 2;
        proof {
            s = s + 1;
        }
    }
    proof {
        lemma_pow2_pos(s);
        lemma_fundamental_div_mod(m as int, d as int);
        lemma_mod_bound(m as int, d as int);
        let lo = (s + 23) as nat;
        let hi = (s + 24) as nat;
        lemma_pow2_adds(s, 24);
        lemma_pow2_adds(s, 23);
        assert(pow2(24) == 0x1000000);
        assert(pow2(23) == 0x800000);
        // m < d * 2^24
        assert(m < d * 0x1000000) by (nonlinear_arith)
            requires
                m / d < 0x1000000,
                m == d * (m / d) + m % d,
                m % d < d,
                d >= 1,
        ;
        if s == 0 {
            assert(d == 1);
            assert(m / 1 == m);
            assert(false);
        }
        // d / 2 * 2^24 <= m, i.e. d * 2^23 <= m
        let h = (d / 2) as int;
        let mi = m as int;
        assert(h == pow2((s - 1) as nat));
        lemma_fundamental_div_mod(mi, h);
        assert(h * 0x1000000 <= mi) by (nonlinear_arith)
            requires
                mi / h >= 0x1000000,
                mi == h * (mi / h) + mi % h,
                mi % h >= 0,
                h >= 1,
        ;
        assert(pow2(lo) == d * 0x800000);
        assert(pow2(hi) == d * 0x1000000);
        assert(h * 0x1000000 == d * 0x800000);
        lemma_bit_length_unique(m as nat, hi);
        assert((bit_length(m as nat) - 24) as nat == s);
        assert(rounding_unit(m as nat) == d);
    }
    let q = m / d;
    let r = m % d;
    if 2 * r > d || (2 * r == d && q % 2 == 1) {
        proof {
            assert((q + 1) * d <= m + d) by (nonlinear_arith)
                requires
                    q * d <= m,
            {
            }
            assert(q * d <= m) by (nonlinear_arith)
                requires
                    m == d * q + r,
                    r >= 0,
            ;
        }
        (q + 1) * d
    } else {
        proof {
            assert(q * d <= m) by (nonlinear_arith)
                requires
                    m == d * q + r,
                    r >= 0,
            ;
        }
        q * d
    }
}

} // verus!
