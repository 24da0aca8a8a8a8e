//! Automatic sample-rate approximation.
//!
//! The device derives its sample clock from a requested rate and an integer
//! divider. The search below reproduces, in integer arithmetic, the
//! IEEE-754 bit layout of the requested rate taken as a double: `exponent`
//! is the unbiased exponent, `fraction` the 52-bit fraction field. It then
//! looks for the smallest divider whose multiple of the fraction aligns on
//! a clean boundary (all masked bits zero or all one), falling back to a
//! divider of 1 when no divider below [`MAX_N`] does.

use crate::constants::MAX_N;
use vstd::arithmetic::power2::*;
use vstd::bits::*;
use vstd::prelude::*;

verus! {

/// Position of the highest set bit of `n`: the unbiased exponent of
/// `n as f64` for every `n >= 1`.
pub open spec fn spec_msb(n: nat) -> nat
    decreases n,
{
    if n <= 1 {
        0
    } else {
        1 + spec_msb(n / 2)
    }
}

/// `2^msb(n) <= n < 2^(msb(n) + 1)`.
pub proof fn lemma_msb_bounds(n: nat)
    requires
        n >= 1,
    ensures
        pow2(spec_msb(n)) <= n < pow2(spec_msb(n) + 1),
    decreases n,
{
    if n <= 1 {
        lemma2_to64();
    } else {
        let e = spec_msb(n / 2);
        lemma_msb_bounds(n / 2);
        lemma_pow2_unfold(e + 1);
        lemma_pow2_unfold(e + 2);
        assert(n == 2 * (n / 2) + n % 2);
        assert(pow2(e + 1) == 2 * pow2(e));
        assert(pow2(e + 2) == 2 * pow2(e + 1));
    }
}

/// The exponent fits in 5 bits for a 32-bit rate.
pub proof fn lemma_msb_u32(n: u32)
    requires
        n >= 1,
    ensures
        spec_msb(n as nat) <= 31,
{
    lemma_msb_bounds(n as nat);
    if spec_msb(n as nat) > 31 {
        lemma2_to64();
        if spec_msb(n as nat) > 32 {
            lemma_pow2_strictly_increases(32, spec_msb(n as nat));
        }
        assert(pow2(spec_msb(n as nat)) >= pow2(32));
        assert(false);
    }
}

/// Unbiased IEEE-754 exponent of `freq as f64`.
pub open spec fn spec_exponent(freq: u32) -> nat {
    spec_msb(freq as nat)
}

/// 52-bit IEEE-754 fraction field of `freq as f64`: the bits of `freq`
/// below its leading one, left-aligned in the 52-bit window.
pub open spec fn spec_fraction(freq: u32) -> int {
    (freq - pow2(spec_exponent(freq))) * pow2((52 - spec_exponent(freq)) as nat)
}

/// The alignment window: fraction bits from `exponent + 4` up to 51.
pub open spec fn spec_mask(freq: u32) -> int {
    pow2(52) - pow2(spec_exponent(freq) + 4)
}

/// An accumulated fraction aligns when every masked bit is zero or every
/// masked bit is one.
pub open spec fn spec_aligned(a: u64, m: u64) -> bool {
    a & m == 0 || (!a) & m == 0
}

/// First candidate `j` in `j0 .. MAX_N` whose multiple of the fraction
/// aligns; 1 when none does.
pub open spec fn spec_divider_from(u: u64, m: u64, j0: int) -> int
    decreases MAX_N - j0,
{
    if 1 <= j0 < MAX_N {
        if spec_aligned(((j0 * u) as u64), m) {
            j0
        } else {
            spec_divider_from(u, m, j0 + 1)
        }
    } else {
        1
    }
}

/// The divider the automatic search settles on for a requested rate.
pub open spec fn spec_auto_divider(freq: u32) -> int {
    spec_divider_from(spec_fraction(freq) as u64, spec_mask(freq) as u64, 1)
}

/// Saturation of a non-negative value to the 32-bit range.
pub open spec fn spec_saturate_u32(v: int) -> u32 {
    if v > u32::MAX {
        u32::MAX
    } else {
        v as u32
    }
}

/// A rate whose fraction already aligns is taken as it stands: the search
/// settles on a divider of 1 (every rate whose binary fraction terminates
/// inside the masked window, a power of two among them, aligns this way).
pub proof fn lemma_aligned_rate_divider_one(freq: u32)
    requires
        freq >= 1,
        spec_aligned(spec_fraction(freq) as u64, spec_mask(freq) as u64),
    ensures
        spec_auto_divider(freq) == 1,
{
    let u = spec_fraction(freq) as u64;
    assert((1 * u) as u64 == u);
}

fn pow2_u64(e: u32) -> (r: u64)
    requires
        e <= 63,
    ensures
        r == pow2(e as nat),
{
    proof {
        lemma_u64_pow2_no_overflow(e as nat);
        lemma_u64_shl_is_mul(1, e as u64);
    }
    1u64 << (e as u64)
}

/// Approximates a requested sample rate: returns the adjusted rate
/// (`freq * divider`, saturated to 32 bits) and the divider found by the
/// alignment search. The divider is never zero, and a divider of 1 leaves
/// the rate unchanged.
pub fn auto_divider(freq: u32) -> (r: (u32, u32))
    requires
        freq >= 1,
    ensures
        1 <= r.1 < MAX_N,
        r.1 == spec_auto_divider(freq),
        r.0 == spec_saturate_u32(freq * r.1),
        r.1 == 1 ==> r.0 == freq,
{
    proof {
        lemma_msb_u32(freq);
    }
    // Exponent: position of the leading one of `freq`.
    let mut e: u32 = 0;
    let mut v: u32 = freq;
    while v >= 2
        invariant
            v >= 1,
            spec_msb(freq as nat) == e + spec_msb(v as nat),
            spec_msb(freq as nat) <= 31,
        decreases v,
    {
        v = v / 2;
        e = e + 1;
    }
    assert(spec_msb(v as nat) == 0);
    assert(e == spec_exponent(freq));
    proof {
        lemma_msb_bounds(freq as nat);
    }

    // Fraction field and alignment mask, as the float bit layout has them.
    let p_e: u64 = pow2_u64(e);
    let p_rest: u64 = pow2_u64(52 - e);
    proof {
        lemma_pow2_adds(e as nat, (52 - e) as nat);
        lemma_pow2_unfold((e + 1) as nat);
        lemma_pow2_pos((52 - e) as nat);
        assert(freq < 2 * pow2(e as nat));
        assert((freq - p_e) * p_rest < pow2(e as nat) * pow2((52 - e) as nat)) by (nonlinear_arith)
            requires
                freq - p_e < pow2(e as nat),
                p_e == pow2(e as nat),
                p_rest == pow2((52 - e) as nat),
                p_rest >= 1,
        ;
        lemma2_to64_rest();
        lemma_pow2_strictly_increases((e + 4) as nat, 52);
    }
    let u_frac: u64 = (freq as u64 - p_e) * p_rest;
    let m: u64 = pow2_u64(52) - pow2_u64(e + 4);
    assert(u_frac == spec_fraction(freq) as u64);
    assert(u_frac < 0x10000000000000);
    assert(m == spec_mask(freq) as u64);

    // Alignment search over dividers 1 .. MAX_N.
    let ghost uf = u_frac;
    let ghost mask = m;
    let mut a: u64 = 0;
    let mut i: usize = 1;
    while i < MAX_N
        invariant_except_break
            a == (i - 1) * uf,
        invariant
            1 <= i <= MAX_N,
            u_frac == uf,
            m == mask,
            uf < 0x10000000000000,
            spec_divider_from(uf, mask, 1) == spec_divider_from(uf, mask, i as int),
        ensures
            1 <= i <= MAX_N,
            spec_divider_from(uf, mask, 1) == if i < MAX_N {
                i as int
            } else {
                1
            },
        decreases MAX_N - i,
    {
        proof {
            assert((i - 1) * uf + uf == i * uf) by (nonlinear_arith);
            assert(i * uf <= 31 * uf) by (nonlinear_arith)
                requires
                    1 <= i <= 31,
                    uf >= 0,
            ;
        }
        a = a + u_frac;
        assert(a == i * uf);
        if (a & m == 0) || ((!a) & m == 0) {
            proof {
                assert(spec_aligned(((i as int * uf) as u64), mask));
                assert(spec_divider_from(uf, mask, i as int) == i as int);
            }
            break;
        }
        proof {
            assert(!spec_aligned(((i as int * uf) as u64), mask));
            assert(spec_divider_from(uf, mask, i as int) == spec_divider_from(
                uf,
                mask,
                i as int + 1,
            ));
        }
        i = i + 1;
    }
    let divider: usize = if i == MAX_N {
        1
    } else {
        i
    };
    assert(divider as int == spec_auto_divider(freq));

    // Adjusted rate, saturated to the 32-bit wire range.
    proof {
        assert(freq as u64 * divider as u64 <= 0xFFFFFFFFu64 * 31) by (nonlinear_arith)
            requires
                freq <= 0xFFFFFFFFu64,
                1 <= divider <= 31,
        ;
    }
    let prod: u64 = (freq as u64) * (divider as u64);
    proof {
        if divider == 1 {
            assert(freq as u64 * 1u64 == freq) by (nonlinear_arith);
        }
    }
    let adjusted: u32 = if prod > 0xFFFFFFFF {
        0xFFFFFFFF
    } else {
        prod as u32
    };
    (adjusted, divider as u32)
}

} // verus!
