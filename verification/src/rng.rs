//! Deterministic pseudo-random number generator (xoshiro256**) seeded with
//! SplitMix64. The same seed yields the same stream on every platform.

use crate::rounding::{
    bit_length, lemma_bit_length_bounds, lemma_round_at_most, lemma_round_exact,
    lemma_round_small, lemma_round_upper, lemma_rounding_unit_large, lemma_unit_below,
    lemma_unit_exponent, round_significand, round_to_significand, rounding_unit,
    significand_limit,
};
use vstd::arithmetic::div_mod::{
    lemma_fundamental_div_mod, lemma_mod_bound, lemma_mod_multiples_basic,
};
use vstd::arithmetic::power2::{lemma_pow2_adds, lemma_pow2_pos, lemma_pow2_strictly_increases, pow2};
use vstd::prelude::*;
use vstd::wrapping::u64_specs;

verus! {

/// Increment of the SplitMix64 sequence (the 64-bit golden ratio).
pub const SPLITMIX_GAMMA: u64 = 0x9e3779b97f4a7c15;

/// The SplitMix64 output function applied to an already advanced counter.
pub open spec fn splitmix_mix(z: u64) -> u64 {
    let a = u64_specs::wrapping_mul(z ^ (z >> 30u64), 0xbf58476d1ce4e5b9u64);
    let b = u64_specs::wrapping_mul(a ^ (a >> 27u64), 0x94d049bb133111ebu64);
    b ^ (b >> 31u64)
}

/// The SplitMix64 counter after `i` steps from `x`.
pub open spec fn splitmix_counter(x: u64, i: nat) -> u64
    decreases i,
{
    if i == 0 {
        x
    } else {
        u64_specs::wrapping_add(splitmix_counter(x, (i - 1) as nat), SPLITMIX_GAMMA)
    }
}

/// The four state words that `Rng::from_seed(seed)` starts from.
pub open spec fn seed_state(seed: u64) -> (u64, u64, u64, u64) {
    (
        splitmix_mix(splitmix_counter(seed, 1)),
        splitmix_mix(splitmix_counter(seed, 2)),
        splitmix_mix(splitmix_counter(seed, 3)),
        splitmix_mix(splitmix_counter(seed, 4)),
    )
}

/// Left rotation of a 64-bit word by `k` bits, `0 < k < 64`.
pub open spec fn rotl(x: u64, k: u64) -> u64 {
    (x << k) | (x >> (64 - k) as u64)
}

/// Output of one xoshiro256** step from state `s`.
pub open spec fn xoshiro_output(s: (u64, u64, u64, u64)) -> u64 {
    u64_specs::wrapping_mul(rotl(u64_specs::wrapping_mul(s.1, 5), 7), 9)
}

/// State after one xoshiro256** step from state `s`.
pub open spec fn xoshiro_step(s: (u64, u64, u64, u64)) -> (u64, u64, u64, u64) {
    let t = s.1 << 17u64;
    let s2 = s.2 ^ s.0;
    let s3 = s.3 ^ s.1;
    let s1 = s.1 ^ s2;
    let s0 = s.0 ^ s3;
    (s0, s1, s2 ^ t, rotl(s3, 45))
}

/// State after `n` steps.
pub open spec fn xoshiro_state_after(s: (u64, u64, u64, u64), n: nat) -> (u64, u64, u64, u64)
    decreases n,
{
    if n == 0 {
        s
    } else {
        xoshiro_step(xoshiro_state_after(s, (n - 1) as nat))
    }
}

/// The first `n` outputs of the stream that starts at state `s`.
pub open spec fn xoshiro_stream(s: (u64, u64, u64, u64), n: nat) -> Seq<u64>
    decreases n,
{
    if n == 0 {
        Seq::empty()
    } else {
        xoshiro_stream(s, (n - 1) as nat).push(
            xoshiro_output(xoshiro_state_after(s, (n - 1) as nat)),
        )
    }
}

/// The first `n` values that a generator seeded with `seed` returns.
pub open spec fn seeded_stream(seed: u64, n: nat) -> Seq<u64> {
    xoshiro_stream(seed_state(seed), n)
}

/// The all-zero state, the one fixed point of the xoshiro256** step.
pub open spec fn zero_state() -> (u64, u64, u64, u64) {
    (0, 0, 0, 0)
}

/// `trunc(f32(k / 2^24) * f32(len))` for `k < 2^24`, computed exactly on
/// naturals: the length and the product are each rounded to 24 significant
/// bits, then the fraction is dropped.
pub open spec fn fraction_index(k: nat, len: nat) -> nat {
    round_to_significand(k * round_to_significand(len)) / significand_limit()
}

/// The index that `Rng::index(len)` returns when the next raw output is
/// `output`: the top 24 bits of `output` taken as a fraction of `len`,
/// saturated to `usize::MAX` as a float-to-integer cast does.
pub open spec fn index_value(output: u64, len: usize) -> usize {
    let v = fraction_index((output >> 40u64) as nat, len as nat);
    if v > usize::MAX {
        usize::MAX
    } else {
        v as usize
    }
}

/// xoshiro256** generator: fast, deterministic and cross-platform.
pub struct Rng {
    s0: u64,
    s1: u64,
    s2: u64,
    s3: u64,
}

impl Rng {
    /// The state is never all zero: xoshiro256** would emit zeros forever.
    #[verifier::type_invariant]
    closed spec fn state_is_nonzero(self) -> bool {
        self@ != zero_state()
    }
}

impl View for Rng {
    type V = (u64, u64, u64, u64);

    closed spec fn view(&self) -> (u64, u64, u64, u64) {
        (self.s0, self.s1, self.s2, self.s3)
    }
}

/// One SplitMix64 step: advances the counter `x` and returns the mixed value.
pub fn splitmix64(x: &mut u64) -> (r: u64)
    ensures
        *final(x) == u64_specs::wrapping_add(*old(x), SPLITMIX_GAMMA),
        r == splitmix_mix(*final(x)),
{
    *x = x.wrapping_add(SPLITMIX_GAMMA);
    let mut z = *x;
    z = (z ^ (z >> 30)).wrapping_mul(0xbf58476d1ce4e5b9);
    z = (z ^ (z >> 27)).wrapping_mul(0x94d049bb133111eb);
    z ^ (z >> 31)
}

/// Rotates `x` left by `k` bits.
fn rotate_left(x: u64, k: u64) -> (r: u64)
    requires
        0 < k < 64,
    ensures
        r == rotl(x, k),
{
    (x << k) | (x >> (64 - k))
}

impl Rng {
    /// Creates a generator whose state is expanded from `seed` by four
    /// SplitMix64 steps.
    pub fn from_seed(seed: u64) -> (rng: Self)
        ensures
            rng@ == seed_state(seed),
    {
        proof {
            lemma_seed_state_nonzero(seed);
        }
        let mut x = seed;
        let s0 = splitmix64(&mut x);
        let s1 = splitmix64(&mut x);
        let s2 = splitmix64(&mut x);
        let s3 = splitmix64(&mut x);
        proof {
            reveal_with_fuel(splitmix_counter, 5);
        }
        Rng { s0, s1, s2, s3 }
    }

    /// Returns the next 64-bit value of the stream.
    pub fn next_u64(&mut self) -> (r: u64)
        ensures
            r == xoshiro_output(old(self)@),
            final(self)@ == xoshiro_step(old(self)@),
            final(self)@ != zero_state(),
    {
        proof {
            use_type_invariant(&*self);
            lemma_step_nonzero(self@);
        }
        let result = rotate_left(self.s1.wrapping_mul(5), 7).wrapping_mul(9);
        let t = self.s1 << 17;
        let s2 = self.s2 ^ self.s0;
        let s3 = self.s3 ^ self.s1;
        let s1 = self.s1 ^ s2;
        let s0 = self.s0 ^ s3;
        let s3 = rotate_left(s3, 45);
        *self = Rng { s0, s1, s2: s2 ^ t, s3 };
        result
    }

    /// Returns an index in `[0, len)` drawn from the next output: the top
    /// 24 bits as a fraction of `len`, rounded as single-precision
    /// arithmetic rounds it. Advances the stream by one value.
    pub fn index(&mut self, len: usize) -> (r: usize)
        ensures
            final(self)@ == xoshiro_step(old(self)@),
            r == index_value(xoshiro_output(old(self)@), len),
            0 < len ==> r < len,
    {
        let out = self.next_u64();
        let k = out >> 40;
        proof {
            assert(out >> 40u64 < 0x1000000) by (bit_vector);
            if 0 < len {
                lemma_index_below_any_len(k as nat, len as nat);
            }
            lemma_round_upper(len as nat);
            if len as nat >= significand_limit() {
                lemma_rounding_unit_large(len as nat);
            }
        }
        let scale = round_significand(len as u128);
        proof {
            if len as nat >= significand_limit() {
                let u = rounding_unit(len as nat);
                assert(u * significand_limit() / 2 <= len as nat);
                assert(u <= len as nat) by (nonlinear_arith)
                    requires
                        u * 0x1000000 / 2 <= len as nat,
                ;
            } else {
                lemma_round_small(len as nat);
            }
            assert(scale <= 2 * (len as nat));
            assert((k as u128) * scale <= 0x1000000u128 * 0x2_0000_0000_0000_0000u128) by (nonlinear_arith)
                requires
                    k < 0x1000000,
                    scale <= 2 * (len as nat),
                    len <= 0xffff_ffff_ffff_ffff,
            ;
        }
        let p = round_significand((k as u128) * scale);
        let v = p / 0x1000000;
        if v > usize::MAX as u128 {
            usize::MAX
        } else {
            v as usize
        }
    }
}


/// SplitMix64's output function sends only zero to zero.
pub proof fn lemma_mix_zero(z: u64)
    ensures
        splitmix_mix(z) == 0 ==> z == 0,
{
    let a = u64_specs::wrapping_mul(z ^ (z >> 30u64), 0xbf58476d1ce4e5b9u64);
    let b = u64_specs::wrapping_mul(a ^ (a >> 27u64), 0x94d049bb133111ebu64);
    assert(b ^ (b >> 31u64) == 0 ==> b == 0) by (bit_vector);
    let y = a ^ (a >> 27u64);
    assert(((y as nat * 0x94d049bb133111ebu64 as nat) % 0x10000000000000000nat) as u64 == 0
        ==> y == 0) by (bit_vector);
    assert(y == 0 ==> a == 0) by (bit_vector)
        requires
            y == a ^ (a >> 27u64),
    ;
    let x = z ^ (z >> 30u64);
    assert(((x as nat * 0xbf58476d1ce4e5b9u64 as nat) % 0x10000000000000000nat) as u64 == 0
        ==> x == 0) by (bit_vector);
    assert(x == 0 ==> z == 0) by (bit_vector)
        requires
            x == z ^ (z >> 30u64),
    ;
}

/// Seeding never produces the all-zero state: two consecutive SplitMix64
/// counters differ by a nonzero increment, so at most one of them is zero.
pub proof fn lemma_seed_state_nonzero(seed: u64)
    ensures
        seed_state(seed) != zero_state(),
{
    reveal_with_fuel(splitmix_counter, 3);
    let c1 = splitmix_counter(seed, 1);
    let c2 = splitmix_counter(seed, 2);
    lemma_mix_zero(c1);
    lemma_mix_zero(c2);
    assert(c2 == u64_specs::wrapping_add(c1, SPLITMIX_GAMMA));
}

/// One xoshiro256** step maps a nonzero state to a nonzero state.
pub proof fn lemma_step_nonzero(s: (u64, u64, u64, u64))
    requires
        s != zero_state(),
    ensures
        xoshiro_step(s) != zero_state(),
{
    let (a, b, c, d) = s;
    assert(((a ^ (d ^ b)) == 0 && (b ^ (c ^ a)) == 0 && ((c ^ a) ^ (b << 17u64)) == 0
        && (((d ^ b) << 45u64) | ((d ^ b) >> 19u64)) == 0) ==> (a == 0 && b == 0 && c == 0 && d
        == 0)) by (bit_vector);
}

/// Every state of a seeded stream is nonzero.
pub proof fn lemma_stream_states_nonzero(seed: u64, n: nat)
    ensures
        xoshiro_state_after(seed_state(seed), n) != zero_state(),
    decreases n,
{
    if n == 0 {
        lemma_seed_state_nonzero(seed);
    } else {
        lemma_stream_states_nonzero(seed, (n - 1) as nat);
        lemma_step_nonzero(xoshiro_state_after(seed_state(seed), (n - 1) as nat));
    }
}

/// For `0 < len <= 2^24` the scaled fraction stays below `len`.
pub proof fn lemma_index_below_len(k: nat, len: nat)
    requires
        k < 0x1000000,
        0 < len <= 0x1000000,
    ensures
        fraction_index(k, len) < len,
{
    lemma_round_small(len);
    let p = k * len;
    assert(p <= 0xffffff * len) by (nonlinear_arith)
        requires
            k < 0x1000000,
            p == k * len,
    ;
    lemma_round_upper(p);
    let d = rounding_unit(p);
    if p >= significand_limit() {
        lemma_rounding_unit_large(p);
        assert(d * 0x800000 <= p) by (nonlinear_arith)
            requires
                d * 0x1000000 / 2 <= p,
        ;
    } else {
        assert(d == 1);
    }
    assert(d < 2 * len + 1);
    assert(round_to_significand(p) < len * 0x1000000);
    vstd::arithmetic::div_mod::lemma_div_by_multiple_is_strongly_ordered(
        round_to_significand(p) as int, (len * 0x1000000) as int, len as int, 0x1000000);
}

/// Stepping first and then `n` times reaches the state `n + 1` steps on.
pub proof fn lemma_state_after_step(s: (u64, u64, u64, u64), n: nat)
    ensures
        xoshiro_state_after(xoshiro_step(s), n) == xoshiro_state_after(s, n + 1),
    decreases n,
{
    reveal_with_fuel(xoshiro_state_after, 2);
    if n > 0 {
        lemma_state_after_step(s, (n - 1) as nat);
    }
}

/// Drawing continues the stream: the first `n + 1` values from state `s`
/// are the value drawn at `s` followed by the first `n` values from the
/// state that draw leaves. With the contracts of `from_seed` and
/// `next_u64`, `k` draws from `Rng::from_seed(seed)` return
/// `seeded_stream(seed, k)`, the same on every run and platform.
pub proof fn lemma_stream_continues(s: (u64, u64, u64, u64), n: nat)
    ensures
        xoshiro_stream(s, n + 1) == seq![xoshiro_output(s)] + xoshiro_stream(xoshiro_step(s), n),
    decreases n,
{
    if n == 0 {
        reveal_with_fuel(xoshiro_stream, 2);
        assert(xoshiro_stream(s, 1) =~= seq![xoshiro_output(s)]);
    } else {
        lemma_stream_continues(s, (n - 1) as nat);
        lemma_state_after_step(s, (n - 1) as nat);
        assert(xoshiro_stream(s, n + 1) =~= seq![xoshiro_output(s)] + xoshiro_stream(
            xoshiro_step(s),
            n,
        ));
    }
}

/// For every positive length the scaled fraction stays below it: the
/// single-precision product of `k / 2^24 < 1` and the rounded length
/// truncates to less than the length.
pub proof fn lemma_index_below_any_len(k: nat, len: nat)
    requires
        k < 0x1000000,
        0 < len,
    ensures
        fraction_index(k, len) < len,
{
    if len <= 0x1000000 {
        lemma_index_below_len(k, len);
        return;
    }
    vstd::arithmetic::power2::lemma2_to64();
    vstd::arithmetic::power2::lemma2_to64_rest();
    lemma_rounding_unit_large(len);
    let b = bit_length(len);
    let s = (b - 24) as nat;
    let u = rounding_unit(len);
    assert(u == pow2(s));
    assert(u * 0x800000 <= len);
    assert(len < u * 0x1000000);
    lemma_fundamental_div_mod(len as int, u as int);
    lemma_mod_bound(len as int, u as int);
    let q = len / u;
    let r = len % u;
    assert(len == u * q + r);
    assert(0x800000 <= q) by (nonlinear_arith)
        requires
            u * 0x800000 <= len,
            len == u * q + r,
            r < u,
            u > 0,
    ;
    assert(q < 0x1000000) by (nonlinear_arith)
        requires
            len < u * 0x1000000,
            len == u * q + r,
            r >= 0,
            u > 0,
    ;
    let up = 2 * r > u || (2 * r == u && q % 2 == 1);
    let j: nat = if up {
        q + 1
    } else {
        q
    };
    let lp = round_to_significand(len);
    assert(lp == j * u);
    assert(2 * len >= (2 * j - 1) * u) by (nonlinear_arith)
        requires
            len == u * q + r,
            r >= 0,
            up ==> 2 * r >= u,
            j == if up {
                q + 1
            } else {
                q
            },
            u > 0,
    ;
    let x = k * lp;
    assert(x == k * j * u) by (nonlinear_arith)
        requires
            x == k * lp,
            lp == j * u,
    ;
    // Everything lies below 2^24 units of 2^24 units of the length.
    lemma_pow2_adds(s, 24);
    lemma_pow2_adds(s, 23);
    lemma_pow2_adds(s, 47);
    lemma_pow2_adds(s, 48);
    assert(pow2((s + 24) as nat) == u * 0x1000000);
    assert(pow2((s + 23) as nat) == u * 0x800000);
    assert(pow2((s + 47) as nat) == u * 0x800000000000);
    assert(pow2((s + 48) as nat) == u * 0x1000000000000);
    assert(x < u * 0x1000000000000) by (nonlinear_arith)
        requires
            x == k * j * u,
            k < 0x1000000,
            j <= 0x1000000,
            u > 0,
    ;
    let t = lemma_unit_below(x, (s + 48) as nat);
    let ux = rounding_unit(x);
    assert(ux == pow2(t));
    assert(t <= s + 24);
    lemma_pow2_pos(t);
    if j == 0x800000 {
        // The rounded length is a power of two; the product is exact.
        assert(q == 0x800000);
        assert(x == k * pow2((s + 23) as nat)) by (nonlinear_arith)
            requires
                x == k * j * u,
                j == 0x800000,
                pow2((s + 23) as nat) == u * 0x800000,
        ;
        if x < significand_limit() {
            lemma_round_small(x);
        } else {
            let t2 = lemma_unit_exponent(x);
            assert(t2 == t) by {
                if t2 < t {
                    lemma_pow2_strictly_increases(t2, t);
                } else if t < t2 {
                    lemma_pow2_strictly_increases(t, t2);
                }
            }
            assert(x < pow2((s + 47) as nat)) by (nonlinear_arith)
                requires
                    x == k * j * u,
                    k < 0x1000000,
                    j == 0x800000,
                    u > 0,
                    pow2((s + 47) as nat) == u * 0x800000000000,
            ;
            if t > s + 23 {
                lemma_pow2_strictly_increases((s + 47) as nat, (t + 24) as nat);
                lemma_rounding_unit_large(x);
                lemma_bit_length_bounds(x);
                assert(pow2((bit_length(x) - 1) as nat) <= x);
                assert((bit_length(x) - 1) as nat == (t + 23) as nat);
                if (s + 47) < (t + 23) {
                    lemma_pow2_strictly_increases((s + 47) as nat, (t + 23) as nat);
                }
                assert(false);
            }
            let e = (s + 23 - t) as nat;
            lemma_pow2_adds(e, t);
            assert((e + t) as nat == (s + 23) as nat);
            assert(x == (k * pow2(e)) * pow2(t)) by (nonlinear_arith)
                requires
                    x == k * pow2((s + 23) as nat),
                    pow2((s + 23) as nat) == pow2(e) * pow2(t),
            ;
            lemma_mod_multiples_basic((k * pow2(e)) as int, pow2(t) as int);
            lemma_round_exact(x);
        }
        assert(round_to_significand(x) == x);
        assert(x < 0x1000000 * len) by (nonlinear_arith)
            requires
                x == k * j * u,
                k < 0x1000000,
                j == 0x800000,
                u * 0x800000 <= len,
                u > 0,
        ;
    } else {
        assert(j > 0x800000);
        let n: nat = (0x1000000 * (j - 1) * u) as nat;
        // `n` is a whole number of units of `x`.
        let e = (s + 24 - t) as nat;
        lemma_pow2_adds(e, t);
        assert((e + t) as nat == (s + 24) as nat);
        assert(n == ((j - 1) * pow2(e)) * pow2(t)) by (nonlinear_arith)
            requires
                n == 0x1000000 * (j - 1) * u,
                pow2((s + 24) as nat) == u * 0x1000000,
                pow2((s + 24) as nat) == pow2(e) * pow2(t),
                j >= 1,
        ;
        lemma_mod_multiples_basic(((j - 1) * pow2(e)) as int, pow2(t) as int);
        assert(n % ux == 0);
        if t == s + 24 {
            assert(ux == u * 0x1000000);
            assert(2 * x < 2 * n + ux) by (nonlinear_arith)
                requires
                    x == k * j * u,
                    k <= 0xffffff,
                    j > 0x800000,
                    n == 0x1000000 * (j - 1) * u,
                    ux == u * 0x1000000,
                    u > 0,
            ;
        } else {
            // `x` needs fewer than 48 + s bits, so it lies below 2^47 units.
            if x >= significand_limit() {
                let t2 = lemma_unit_exponent(x);
                assert(t2 == t) by {
                    if t2 < t {
                        lemma_pow2_strictly_increases(t2, t);
                    } else if t < t2 {
                        lemma_pow2_strictly_increases(t, t2);
                    }
                }
                assert(x < pow2((t + 24) as nat));
                if t + 24 < s + 47 {
                    lemma_pow2_strictly_increases((t + 24) as nat, (s + 47) as nat);
                }
                assert(x < u * 0x800000000000);
            } else {
                assert(u * 0x800000000000 >= 0x1000000) by (nonlinear_arith)
                    requires
                        u >= 1,
                ;
            }
            assert(u * 0x800000000000 <= n) by (nonlinear_arith)
                requires
                    n == 0x1000000 * (j - 1) * u,
                    j - 1 >= 0x800000,
                    u > 0,
            ;
        }
        lemma_round_at_most(x, n);
        assert(n < 0x1000000 * len) by (nonlinear_arith)
            requires
                n == 0x1000000 * (j - 1) * u,
                2 * len >= (2 * j - 1) * u,
                u > 0,
                j >= 1,
        ;
    }
    assert(round_to_significand(x) < 0x1000000 * len);
    vstd::arithmetic::div_mod::lemma_multiply_divide_lt(
        round_to_significand(x) as int,
        0x1000000,
        len as int,
    );
}

/// What one call returns when the next raw output is `output`: a call of
/// `next_u64` (`None`) returns the output itself, a call of `index(len)`
/// (`Some(len)`) the index that `index_value` takes from it.
pub open spec fn draw_value(output: u64, call: Option<usize>) -> int {
    match call {
        None => output as int,
        Some(len) => index_value(output, len) as int,
    }
}

/// What a sequence of calls on a generator in state `s` returns, each
/// call as in `draw_value`; every call advances the state by one step, as
/// the contracts of `next_u64` and `index` say.
pub open spec fn draws_from(s: (u64, u64, u64, u64), calls: Seq<Option<usize>>) -> Seq<int>
    decreases calls.len(),
{
    if calls.len() == 0 {
        Seq::empty()
    } else {
        seq![draw_value(xoshiro_output(s), calls[0])] + draws_from(
            xoshiro_step(s),
            calls.drop_first(),
        )
    }
}

proof fn lemma_stream_len(s: (u64, u64, u64, u64), n: nat)
    ensures
        xoshiro_stream(s, n).len() == n,
    decreases n,
{
    if n > 0 {
        lemma_stream_len(s, (n - 1) as nat);
    }
}

proof fn lemma_draws_len(s: (u64, u64, u64, u64), calls: Seq<Option<usize>>)
    ensures
        draws_from(s, calls).len() == calls.len(),
    decreases calls.len(),
{
    if calls.len() > 0 {
        lemma_draws_len(xoshiro_step(s), calls.drop_first());
    }
}

/// The `i`-th value of a stream is the output of the state `i` steps on.
proof fn lemma_stream_index(s: (u64, u64, u64, u64), n: nat, i: int)
    requires
        0 <= i < n,
    ensures
        xoshiro_stream(s, n)[i] == xoshiro_output(xoshiro_state_after(s, i as nat)),
    decreases n,
{
    lemma_stream_len(s, (n - 1) as nat);
    if i < n - 1 {
        lemma_stream_index(s, (n - 1) as nat, i);
    }
}

/// The `i`-th result of a call sequence from state `s` is read from the
/// output of the state `i` steps on.
proof fn lemma_draw_at(s: (u64, u64, u64, u64), calls: Seq<Option<usize>>, i: int)
    requires
        0 <= i < calls.len(),
    ensures
        draws_from(s, calls)[i] == draw_value(
            xoshiro_output(xoshiro_state_after(s, i as nat)),
            calls[i],
        ),
    decreases calls.len(),
{
    let rest = calls.drop_first();
    lemma_draws_len(xoshiro_step(s), rest);
    if i > 0 {
        lemma_draw_at(xoshiro_step(s), rest, i - 1);
        lemma_state_after_step(s, (i - 1) as nat);
        assert(rest[i - 1] == calls[i]);
    }
}

/// Any sequence of `next_u64` and `index` calls on `Rng::from_seed(seed)`
/// gives results that depend on the seed and the calls alone, on every run
/// and platform: the `i`-th result is taken from the `i`-th value of
/// `seeded_stream(seed, _)`, whatever calls came before it. Two generators
/// from one seed thus return the same values to the same calls.
pub proof fn lemma_seeded_draws(seed: u64, calls: Seq<Option<usize>>, i: int)
    requires
        0 <= i < calls.len(),
    ensures
        draws_from(seed_state(seed), calls).len() == calls.len(),
        draws_from(seed_state(seed), calls)[i] == draw_value(
            seeded_stream(seed, calls.len())[i],
            calls[i],
        ),
{
    lemma_draws_len(seed_state(seed), calls);
    lemma_stream_len(seed_state(seed), calls.len());
    lemma_draw_at(seed_state(seed), calls, i);
    lemma_stream_index(seed_state(seed), calls.len(), i);
}

} // verus!
