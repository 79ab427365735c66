//! Fixed-point coordinates and the decoding of IEEE-754 bit patterns.
//!
//! All geometry in this library is carried as signed fixed-point numbers
//! with [`SCALE_BITS`] fractional bits: the `i64` value `n` stands for the
//! real number `n / SCALE`.  Model sources store their coordinates as
//! IEEE-754 singles or doubles; the loaders hand those over as raw bit
//! patterns, and [`fixed_from_f32_bits`] and [`fixed_from_f64_bits`] turn
//! one bit pattern into the fixed-point value, truncating toward zero and
//! saturating at [`LIMIT`].

use vstd::arithmetic::div_mod::lemma_basic_div;
use vstd::arithmetic::mul::{lemma_mul_inequality, lemma_mul_upper_bound};
use vstd::arithmetic::div_mod::{lemma_div_is_ordered, lemma_div_pos_is_pos};
use vstd::arithmetic::power2::{
    lemma2_to64, lemma2_to64_rest, lemma_pow2_pos, lemma_pow2_strictly_increases, pow2,
};
use vstd::prelude::*;

verus! {

/// Number of fractional bits in a fixed-point coordinate.
pub const SCALE_BITS: u32 = 16;

/// The fixed-point representation of the real number one: `2^16`.
pub const SCALE: i64 = 0x1_0000;

/// Largest magnitude a fixed-point coordinate can take: `2^40`, that is
/// `2^24` in model units.  Decoded values beyond it saturate.
pub const LIMIT: i64 = 0x100_0000_0000;

/// Division truncating toward zero, the semantics of machine division.
/// Unspecified for `b == 0`.
pub open spec fn div_trunc(a: int, b: int) -> int {
    if a == 0 {
        0
    } else if a > 0 && b > 0 {
        a / b
    } else if a < 0 && b < 0 {
        (a * -1) / (b * -1)
    } else if a < 0 {
        ((a * -1) / b) * -1
    } else {
        (a / (b * -1)) * -1
    }
}

/// Sign bit of an IEEE-754 single given as its bit pattern.
pub open spec fn f32_sign(bits: u32) -> bool {
    bits >= 0x8000_0000
}

/// Biased exponent field of an IEEE-754 single given as its bit pattern.
pub open spec fn f32_exp(bits: u32) -> u32 {
    (bits / 0x80_0000) % 0x100
}

/// Fraction field of an IEEE-754 single given as its bit pattern.
pub open spec fn f32_frac(bits: u32) -> u32 {
    bits % 0x80_0000
}

/// Magnitude of the fixed-point value of an IEEE-754 single: the encoded
/// magnitude is `m * 2^(e - 150)` in model units (with the implicit leading
/// bit for normal numbers), so `m * 2^(e - 134)` in fixed-point units;
/// the result is truncated toward zero and saturated at [`LIMIT`].
/// Infinities and NaNs saturate as well.
pub open spec fn f32_mag_fixed(bits: u32) -> nat {
    if f32_exp(bits) == 0xff {
        LIMIT as nat
    } else {
        let m: nat = if f32_exp(bits) == 0 {
            f32_frac(bits) as nat
        } else {
            (0x80_0000 + f32_frac(bits)) as nat
        };
        let e: nat = if f32_exp(bits) == 0 {
            1nat
        } else {
            f32_exp(bits) as nat
        };
        let raw: nat = if e >= 134 {
            m * pow2((e - 134) as nat)
        } else {
            m / pow2((134 - e) as nat)
        };
        if raw > LIMIT as nat {
            LIMIT as nat
        } else {
            raw
        }
    }
}

/// The fixed-point value of an IEEE-754 single given as its bit pattern:
/// its magnitude with the sign applied.  A negative NaN decodes to `-LIMIT`.
pub open spec fn fixed_of_bits(bits: u32) -> int {
    if f32_sign(bits) {
        -(f32_mag_fixed(bits) as int)
    } else {
        f32_mag_fixed(bits) as int
    }
}

/// Sign bit of an IEEE-754 double given as its bit pattern.
pub open spec fn f64_sign(bits: u64) -> bool {
    bits >= 0x8000_0000_0000_0000
}

/// Biased exponent field of an IEEE-754 double given as its bit pattern.
pub open spec fn f64_exp(bits: u64) -> u64 {
    (bits / 0x10_0000_0000_0000) % 0x800
}

/// Fraction field of an IEEE-754 double given as its bit pattern.
pub open spec fn f64_frac(bits: u64) -> u64 {
    bits % 0x10_0000_0000_0000
}

/// Magnitude of the fixed-point value of an IEEE-754 double: the encoded
/// magnitude is `m * 2^(e - 1075)` in model units, so `m * 2^(e - 1059)`
/// in fixed-point units; truncated toward zero and saturated at [`LIMIT`].
pub open spec fn f64_mag_fixed(bits: u64) -> nat {
    if f64_exp(bits) == 0x7ff {
        LIMIT as nat
    } else {
        let m: nat = if f64_exp(bits) == 0 {
            f64_frac(bits) as nat
        } else {
            (0x10_0000_0000_0000 + f64_frac(bits)) as nat
        };
        let e: nat = if f64_exp(bits) == 0 {
            1nat
        } else {
            f64_exp(bits) as nat
        };
        let raw: nat = if e >= 1059 {
            m * pow2((e - 1059) as nat)
        } else {
            m / pow2((1059 - e) as nat)
        };
        if raw > LIMIT as nat {
            LIMIT as nat
        } else {
            raw
        }
    }
}

/// The fixed-point value of an IEEE-754 double given as its bit pattern.
pub open spec fn fixed_of_bits64(bits: u64) -> int {
    if f64_sign(bits) {
        -(f64_mag_fixed(bits) as int)
    } else {
        f64_mag_fixed(bits) as int
    }
}

/// `2^k` as a machine word.
fn pow2_u64(k: u32) -> (r: u64)
    requires
        k <= 63,
    ensures
        r == pow2(k as nat),
        r >= 1,
{
    proof {
        lemma2_to64();
        lemma2_to64_rest();
    }
    let mut r: u64 = 1;
    let mut i: u32 = 0;
    while i < k
        invariant
            i <= k <= 63,
            r == pow2(i as nat),
        decreases k - i,
    {
        proof {
            lemma_pow2_strictly_increases(i as nat + 1, 64);
            lemma2_to64_rest();
            assert(pow2(i as nat + 1) == 2 * pow2(i as nat)) by {
                vstd::arithmetic::power2::lemma_pow2_unfold(i as nat + 1);
            }
        }
        r = r * 2;
        i = i + 1;
    }
    r
}

/// Decode an IEEE-754 single bit pattern into a fixed-point coordinate.
#[verifier::rlimit(30)]
pub fn fixed_from_f32_bits(bits: u32) -> (r: i64)
    ensures
        r as int == fixed_of_bits(bits),
        -LIMIT <= r <= LIMIT,
{
    proof {
        lemma2_to64();
        lemma2_to64_rest();
    }
    let neg = bits >= 0x8000_0000;
    let e: u32 = (bits / 0x80_0000) % 0x100;
    let f: u32 = bits % 0x80_0000;
    let mag: u64 = if e == 0xff {
        0x100_0000_0000u64
    } else {
        let m: u64 = if e == 0 {
            f as u64
        } else {
            0x80_0000u64 + f as u64
        };
        let ee: u32 = if e == 0 {
            1
        } else {
            e
        };
        if ee >= 134 {
            if ee - 134 >= 17 {
                proof {
                    // m holds the implicit bit, so m * 2^(ee-134) >= 2^23 * 2^17 = LIMIT.
                    if ee - 134 > 17 {
                        lemma_pow2_strictly_increases(17, (ee - 134) as nat);
                    }
                    lemma_mul_inequality(0x80_0000, m as int, pow2(17) as int);
                    lemma_mul_inequality(pow2(17) as int, pow2((ee - 134) as nat) as int, m as int);
                }
                0x100_0000_0000u64
            } else {
                let p = pow2_u64(ee - 134);
                proof {
                    lemma_pow2_strictly_increases((ee - 134) as nat, 17);
                    lemma_mul_upper_bound(m as int, 0xff_ffff, p as int, 0x1_0000);
                }
                m * p
            }
        } else {
            let k: u32 = 134 - ee;
            if k >= 24 {
                proof {
                    // m < 2^24 <= 2^k, so the quotient vanishes.
                    if k > 24 {
                        lemma_pow2_strictly_increases(24, k as nat);
                    }
                    lemma_basic_div(m as int, pow2(k as nat) as int);
                }
                0
            } else {
                let p = pow2_u64(k);
                m / p
            }
        }
    };
    proof {
        assert(mag as nat == f32_mag_fixed(bits));
    }
    if neg {
        -(mag as i64)
    } else {
        mag as i64
    }
}

/// Decode an IEEE-754 double bit pattern into a fixed-point coordinate.
pub fn fixed_from_f64_bits(bits: u64) -> (r: i64)
    ensures
        r as int == fixed_of_bits64(bits),
        -LIMIT <= r <= LIMIT,
{
    proof {
        lemma2_to64();
        lemma2_to64_rest();
    }
    let neg = bits >= 0x8000_0000_0000_0000;
    let e: u64 = (bits / 0x10_0000_0000_0000) % 0x800;
    let f: u64 = bits % 0x10_0000_0000_0000;
    let mag: u64 = if e == 0x7ff {
        0x100_0000_0000u64
    } else {
        let m: u64 = if e == 0 {
            f
        } else {
            0x10_0000_0000_0000u64 + f
        };
        let ee: u64 = if e == 0 {
            1
        } else {
            e
        };
        if ee >= 1059 {
            proof {
                // m holds the implicit bit, so m * 2^(ee-1059) >= 2^52 > LIMIT.
                lemma_pow2_pos((ee - 1059) as nat);
                lemma_mul_inequality(1, pow2((ee - 1059) as nat) as int, m as int);
            }
            0x100_0000_0000u64
        } else {
            let k: u64 = 1059 - ee;
            if k >= 53 {
                proof {
                    // m < 2^53 <= 2^k, so the quotient vanishes.
                    if k > 53 {
                        lemma_pow2_strictly_increases(53, k as nat);
                    }
                    lemma_basic_div(m as int, pow2(k as nat) as int);
                }
                0
            } else {
                let p = pow2_u64(k as u32);
                let q = m / p;
                if q > 0x100_0000_0000u64 {
                    0x100_0000_0000u64
                } else {
                    q
                }
            }
        }
    };
    if neg {
        -(mag as i64)
    } else {
        mag as i64
    }
}

/// `|n| <= l` keeps `n * SCALE` within `l * SCALE` on both sides.
pub proof fn lemma_mul_scale_bound(n: int, l: int)
    requires
        l > 0,
        -l <= n <= l,
    ensures
        -(l * SCALE) <= n * SCALE <= l * SCALE,
{
    assert(-(l * SCALE) <= n * SCALE <= l * SCALE) by (nonlinear_arith)
        requires
            l > 0,
            -l <= n <= l,
    ;
}

/// A quotient whose numerator is bounded by `c` times the divisor is itself
/// bounded by `c`.
pub proof fn lemma_div_trunc_bound(a: int, b: int, c: int)
    requires
        b > 0,
        c >= 0,
        -(c * b) <= a <= c * b,
    ensures
        -c <= div_trunc(a, b) <= c,
{
    vstd::arithmetic::div_mod::lemma_div_by_multiple(c, b);
    assert((c * b) / b == c);
    if a == 0 {
    } else if a > 0 {
        lemma_div_is_ordered(a, c * b, b);
        lemma_div_pos_is_pos(a, b);
    } else {
        assert(a * -1 <= c * b);
        lemma_div_is_ordered(a * -1, c * b, b);
        lemma_div_pos_is_pos(a * -1, b);
        assert((a * -1) / b <= c);
        assert(div_trunc(a, b) == ((a * -1) / b) * -1);
    }
}

} // verus!
