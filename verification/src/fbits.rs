use vstd::prelude::*;

verus! {

use vstd::arithmetic::power2::pow2;
use vstd::arithmetic::power2::lemma2_to64;
use vstd::arithmetic::power2::lemma_pow2_adds;
use vstd::arithmetic::power2::lemma_pow2_pos;
use vstd::arithmetic::div_mod::lemma_div_denominator;

// The geometry routines consume scalar parameters (error bounds, thresholds,
// reduction factors) that are IEEE 754 single-precision values. The library
// never computes with such values directly; it carries each one as its 32-bit
// pattern, and these spec functions read the fields of a pattern so that
// contracts can speak about the value it denotes exactly, in integer
// arithmetic.

/// Sign field of a single-precision bit pattern.
pub open spec fn sign_of(bits: u32) -> u32 {
    bits >> 31
}

/// Biased exponent field of a single-precision bit pattern.
pub open spec fn exp_of(bits: u32) -> u32 {
    (bits >> 23) & 0xff
}

/// Fraction field of a single-precision bit pattern.
pub open spec fn frac_of(bits: u32) -> u32 {
    bits & 0x7fffff
}

pub open spec fn is_nan(bits: u32) -> bool {
    exp_of(bits) == 255 && frac_of(bits) != 0
}

pub open spec fn is_inf(bits: u32) -> bool {
    exp_of(bits) == 255 && frac_of(bits) == 0
}

pub open spec fn is_zero(bits: u32) -> bool {
    exp_of(bits) == 0 && frac_of(bits) == 0
}

/// The significand of a finite value read as an integer: the fraction field,
/// with the implicit leading bit added for normal numbers.
pub open spec fn mantissa_of(bits: u32) -> nat {
    if exp_of(bits) == 0 {
        frac_of(bits) as nat
    } else {
        (frac_of(bits) + 0x800000) as nat
    }
}

/// The exponent e such that a finite pattern denotes mantissa_of * 2^e;
/// always E - 150 where E is the effective biased exponent (subnormal
/// patterns use E = 1).
pub open spec fn pow_shift_of(bits: u32) -> int {
    (if exp_of(bits) == 0 {
        1int
    } else {
        exp_of(bits) as int
    }) - 150
}

/// The IEEE comparison `value >= 0.0`: not a NaN, and either the sign bit is
/// clear or the value is a zero (negative zero compares equal to zero).
pub open spec fn ge_zero(bits: u32) -> bool {
    !is_nan(bits) && (sign_of(bits) == 0 || is_zero(bits))
}

/// The value is finite or infinite and strictly positive.
pub open spec fn gt_zero(bits: u32) -> bool {
    !is_nan(bits) && sign_of(bits) == 0 && !is_zero(bits)
}

/// The IEEE comparison `value <= 1.0`.
pub open spec fn le_one(bits: u32) -> bool {
    !is_nan(bits) && (sign_of(bits) == 1 || is_zero(bits) || exp_of(bits) < 127 || (exp_of(bits)
        == 127 && frac_of(bits) == 0))
}

/// floor(n * v) for the finite value v denoted by the pattern, ignoring the
/// sign: the product of n with the significand, shifted by the exponent.
pub open spec fn scaled_floor(n: nat, bits: u32) -> nat {
    let prod = n * mantissa_of(bits);
    if pow_shift_of(bits) >= 0 {
        prod * pow2(pow_shift_of(bits) as nat)
    } else {
        prod / pow2((-pow_shift_of(bits)) as nat)
    }
}

/// floor(n * v) carried into the machine range: a NaN or negative factor
/// yields 0, an infinite factor saturates, and a finite product saturates at
/// usize::MAX.
pub open spec fn scaled_sat(n: nat, bits: u32) -> nat {
    if is_nan(bits) || sign_of(bits) == 1 {
        0
    } else if is_inf(bits) {
        usize::MAX as nat
    } else if scaled_floor(n, bits) > usize::MAX as nat {
        usize::MAX as nat
    } else {
        scaled_floor(n, bits)
    }
}

spec fn min_nat(a: nat, b: nat) -> nat {
    if a < b {
        a
    } else {
        b
    }
}

/// Computes floor(n * v) exactly in integer arithmetic, where v is the
/// single-precision value with the given bit pattern, saturating at
/// usize::MAX; NaN and negative factors yield 0.
pub fn scale_by_bits(n: usize, bits: u32) -> (r: usize)
    ensures
        r as nat == scaled_sat(n as nat, bits),
{
    let exp: u32 = (bits >> 23) & 0xff;
    let frac: u32 = bits & 0x7fffff;
    assert(exp == exp_of(bits) && frac == frac_of(bits));
    if (bits >> 31) == 1 || (exp == 255 && frac != 0) {
        return 0;
    }
    if exp == 255 {
        return usize::MAX;
    }
    assert(exp < 255) by (bit_vector)
        requires
            exp == (bits >> 23) & 0xff && !((bits >> 23) & 0xff == 255);
    assert(frac < 0x800000) by (bit_vector)
        requires
            frac == bits & 0x7fffff;
    let m: u32 = if exp == 0 {
        frac
    } else {
        frac + 0x800000
    };
    let e: u32 = if exp == 0 {
        1
    } else {
        exp
    };
    assert(m as nat == mantissa_of(bits));
    assert(e as int - 150 == pow_shift_of(bits));
    let ghost prod: nat = (n as nat) * (m as nat);
    assert((n as u128) * (m as u128) <= u128::MAX) by (nonlinear_arith)
        requires
            (n as u128) <= u64::MAX as u128 && (m as u128) < 0x1000000,
    ;
    let mut acc: u128 = (n as u128) * (m as u128);
    let cap: u128 = (usize::MAX as u128) + 1;
    if e >= 150 {
        let ghost total: nat = (e - 150) as nat;
        if acc >= cap {
            acc = cap;
        }
        let mut s: u32 = e - 150;
        proof {
            lemma2_to64();
            assert(prod * pow2(0) == prod) by (nonlinear_arith)
                requires
                    pow2(0) == 1;
            assert((total - s) as nat == 0);
            assert(acc as nat == min_nat(prod * pow2((total - s) as nat), cap as nat));
        }
        while s > 0
            invariant
                s <= total,
                cap == usize::MAX as u128 + 1,
                acc as nat == min_nat(prod * pow2((total - s) as nat), cap as nat),
            decreases s,
        {
            let ghost i: nat = (total - s) as nat;
            let ghost w: nat = prod * pow2(i);
            proof {
                lemma_pow2_adds(i, 1);
                lemma2_to64();
                assert(prod * pow2(i + 1) == w * 2) by (nonlinear_arith)
                    requires
                        pow2(i + 1) == pow2(i) * 2 && w == prod * pow2(i);
            }
            let doubled: u128 = 2 * acc;
            if doubled >= cap {
                acc = cap;
            } else {
                acc = doubled;
            }
            s = s - 1;
        }
        assert(acc as nat == min_nat(scaled_floor(n as nat, bits), cap as nat));
    } else {
        let mut s: u32 = 150 - e;
        let ghost total: nat = (150 - e) as nat;
        proof {
            lemma2_to64();
            assert(prod / pow2(0) == prod) by (nonlinear_arith)
                requires
                    pow2(0) == 1;
            assert((total - s) as nat == 0);
        }
        while s > 0
            invariant
                s <= total,
                acc as nat == prod / pow2((total - s) as nat),
            decreases s,
        {
            let ghost i: nat = (total - s) as nat;
            proof {
                lemma_pow2_pos(i);
                lemma2_to64();
                lemma_pow2_adds(i, 1);
                lemma_div_denominator(prod as int, pow2(i) as int, 2);
            }
            acc = acc / 2;
            s = s - 1;
        }
        assert(acc as nat == scaled_floor(n as nat, bits));
    }
    if acc > usize::MAX as u128 {
        usize::MAX
    } else {
        acc as usize
    }
}

} // verus!
