//! Bit patterns of the single-precision constants the emitters embed, and
//! the one value computed at lowering time: the bits of `1.0 / d` for a
//! layernorm row width `d`, with IEEE 754 round-to-nearest-even, computed
//! on integers.

use vstd::prelude::*;
use vstd::arithmetic::power2::{
    pow2, lemma_pow2_unfold, lemma_pow2_adds, lemma_pow2_pos, lemma_pow2_strictly_increases, lemma2_to64,
    lemma2_to64_rest,
};

verus! {

/// Bits of `1e-5_f32`.
pub const EPS_BITS: u32 = 0x3727c5ac;

/// Bits of `1.0_f32`.
pub const ONE_BITS: u32 = 0x3f800000;

/// Bits of `f32::INFINITY`.
pub const INFINITY_BITS: u32 = 0x7f800000;

/// The integer nearest to `num / den`; a tie goes to the even one.
pub open spec fn round_half_even(num: nat, den: nat) -> nat {
    let q = num / den;
    let r = num % den;
    if 2 * r > den || (2 * r == den && q % 2 == 1) {
        q + 1
    } else {
        q
    }
}

/// Number of binary digits of `n` (0 for 0).
pub open spec fn bit_length(n: nat) -> nat
    decreases n,
{
    if n == 0 {
        0
    } else {
        1 + bit_length(n / 2)
    }
}

/// `n as f32` for `n > 0`, as a significand `s` with `2^23 <= s <= 2^24`
/// times `2^(bit_length(n) - 24)`: `n` itself when it has at most 24
/// digits, else `n` rounded to 24 digits (to nearest, ties to even).
pub open spec fn f32_significand(n: nat) -> nat {
    let len = bit_length(n);
    if len <= 24 {
        n * pow2((24 - len) as nat)
    } else {
        round_half_even(n, pow2((len - 24) as nat))
    }
}

/// `(1.0_f32 / n as f32).to_bits()`: `+inf` for 0; otherwise the quotient
/// `2^47 / s` rounded to nearest-even is the result's significand, and the
/// result's biased exponent is `127 - bit_length(n)` (a significand that
/// rounds up to `2^24` carries into the exponent field).
pub open spec fn recip_bits(n: nat) -> nat {
    if n == 0 {
        INFINITY_BITS as nat
    } else {
        ((127 - bit_length(n)) * pow2(23) + round_half_even(pow2(47), f32_significand(n))
            - pow2(23)) as nat
    }
}

proof fn lemma_bit_length_bounds(n: nat)
    requires
        n > 0,
    ensures
        bit_length(n) >= 1,
        pow2((bit_length(n) - 1) as nat) <= n < pow2(bit_length(n)),
    decreases n,
{
    lemma2_to64();
    if n == 1 {
        assert(bit_length(0) == 0);
        assert(bit_length(1) == 1);
    } else {
        lemma_bit_length_bounds(n / 2);
        let l = bit_length(n / 2);
        assert(bit_length(n) == 1 + l);
        lemma_pow2_unfold(l + 1);
        if l >= 1 {
            lemma_pow2_unfold(l);
            assert(pow2(l) == 2 * pow2((l - 1) as nat));
        }
    }
}

proof fn lemma_bit_length_u64(n: u64)
    requires
        n > 0,
    ensures
        1 <= bit_length(n as nat) <= 64,
        pow2((bit_length(n as nat) - 1) as nat) <= n < pow2(bit_length(n as nat)),
{
    lemma_bit_length_bounds(n as nat);
    lemma2_to64();
    let l = bit_length(n as nat);
    if l > 64 {
        lemma_pow2_strictly_increases(64, (l - 1) as nat);
    }
}

fn bit_len(d: u64) -> (len: u64)
    ensures
        len == bit_length(d as nat),
{
    let mut len: u64 = 0;
    let mut t: u64 = d;
    proof {
        if d > 0 {
            lemma_bit_length_u64(d);
        }
    }
    while t > 0
        invariant
            len + bit_length(t as nat) == bit_length(d as nat),
            bit_length(d as nat) <= 64,
        decreases t,
    {
        t = t / 2;
        len = len + 1;
    }
    len
}

fn pow2_u64(k: u64) -> (r: u64)
    requires
        k <= 63,
    ensures
        r == pow2(k as nat),
{
    let mut r: u64 = 1;
    let mut i: u64 = 0;
    proof {
        lemma2_to64();
    }
    while i < k
        invariant
            i <= k <= 63,
            r == pow2(i as nat),
        decreases k - i,
    {
        proof {
            lemma_pow2_unfold((i + 1) as nat);
            lemma2_to64_rest();
            if i + 1 < 63 {
                lemma_pow2_strictly_increases((i + 1) as nat, 63);
            }
        }
        r = r * 2;
        i = i + 1;
    }
    r
}

fn round_half_even_u64(num: u64, den: u64) -> (r: u64)
    requires
        0 < den < 0x8000_0000_0000_0000,
        num / den < u64::MAX,
    ensures
        r == round_half_even(num as nat, den as nat),
{
    let q = num / den;
    let rem = num % den;
    if 2 * rem > den || (2 * rem == den && q % 2 == 1) {
        q + 1
    } else {
        q
    }
}

/// The significand of `d as f32` is within `[2^23, 2^24]`.
fn significand(d: u64, len: u64) -> (s: u64)
    requires
        d > 0,
        len == bit_length(d as nat),
    ensures
        s == f32_significand(d as nat),
        0x80_0000 <= s <= 0x100_0000,
{
    proof {
        lemma_bit_length_u64(d);
        lemma2_to64();
    }
    if len <= 24 {
        let p = pow2_u64(24 - len);
        proof {
            lemma_pow2_adds((len - 1) as nat, (24 - len) as nat);
            lemma_pow2_adds(len as nat, (24 - len) as nat);
            let lo = pow2((len - 1) as nat);
            let hi = pow2(len as nat);
            assert(lo * p <= d * p && d * p < hi * p) by (nonlinear_arith)
                requires
                    lo <= d < hi,
                    p > 0,
            ;
        }
        d * p
    } else {
        let p = pow2_u64(len - 24);
        proof {
            lemma2_to64_rest();
            if len - 24 < 40 {
                lemma_pow2_strictly_increases((len - 24) as nat, 40);
            }
            lemma_pow2_adds(23, (len - 24) as nat);
            lemma_pow2_adds(24, (len - 24) as nat);
            let lo = pow2((len - 1) as nat);
            let hi = pow2(len as nat);
            let q = d / p;
            assert(0x80_0000 <= q < 0x100_0000) by (nonlinear_arith)
                requires
                    lo == 0x80_0000 * p,
                    hi == 0x100_0000 * p,
                    lo <= d < hi,
                    p > 0,
                    q == d / p,
            ;
        }
        round_half_even_u64(d, p)
    }
}

proof fn lemma_bit_length_pow2(k: nat)
    ensures
        bit_length(pow2(k)) == k + 1,
    decreases k,
{
    lemma2_to64();
    if k == 0 {
        assert(bit_length(0) == 0);
    } else {
        lemma_pow2_unfold(k);
        lemma_pow2_pos((k - 1) as nat);
        assert(pow2(k) / 2 == pow2((k - 1) as nat));
        lemma_bit_length_pow2((k - 1) as nat);
    }
}

proof fn lemma_round_exact(a: nat, b: nat)
    requires
        b > 0,
    ensures
        round_half_even(a * b, b) == a,
{
    assert((a * b) / b == a && (a * b) % b == 0) by (nonlinear_arith)
        requires
            b > 0,
    ;
}

/// The reciprocal of a power of two is exact: `1 / 2^k` has biased
/// exponent `127 - k` and an all-zero mantissa.
pub proof fn lemma_recip_pow2(k: nat)
    requires
        k <= 63,
    ensures
        recip_bits(pow2(k)) == (127 - k) * pow2(23),
{
    lemma2_to64();
    lemma_pow2_pos(k);
    lemma_bit_length_pow2(k);
    let p23 = pow2(23);
    if k + 1 <= 24 {
        lemma_pow2_adds(k, (23 - k) as nat);
        assert(f32_significand(pow2(k)) == p23);
    } else {
        lemma_pow2_adds(23, (k - 23) as nat);
        lemma_pow2_pos((k - 23) as nat);
        lemma_round_exact(p23, pow2((k - 23) as nat));
        assert(f32_significand(pow2(k)) == p23);
    }
    lemma_pow2_adds(24, 23);
    lemma_round_exact(pow2(24), p23);
    assert(round_half_even(pow2(47), p23) == pow2(24));
    lemma_pow2_unfold(24);
    assert(pow2(24) == 2 * p23);
    assert((126 - k) * p23 + 2 * p23 - p23 == (127 - k) * p23) by (nonlinear_arith);
}

/// The bits of `1.0_f32 / d as f32`.
pub fn f32_recip_bits(d: u64) -> (r: u32)
    ensures
        r == recip_bits(d as nat),
{
    if d == 0 {
        return INFINITY_BITS;
    }
    let len = bit_len(d);
    let s = significand(d, len);
    proof {
        lemma_bit_length_u64(d);
        lemma2_to64();
        lemma2_to64_rest();
        let q = 0x8000_0000_0000u64 / s;
        assert(0x80_0000 <= q <= 0x100_0000) by (nonlinear_arith)
            requires
                0x80_0000 <= s <= 0x100_0000,
                q == 0x8000_0000_0000u64 / s,
        ;
    }
    let m = round_half_even_u64(0x8000_0000_0000, s);
    let bits = (127 - len) * 0x80_0000 + m - 0x80_0000;
    bits as u32
}

} // verus!
