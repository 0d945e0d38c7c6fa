use vstd::prelude::*;

verus! {

use vstd::arithmetic::power2::pow2;
use vstd::arithmetic::power2::lemma2_to64;
use vstd::arithmetic::power2::lemma_pow2_adds;
use vstd::arithmetic::power2::lemma_pow2_pos;
use vstd::arithmetic::div_mod::lemma_div_is_ordered;
use vstd::arithmetic::div_mod::lemma_div_multiples_vanish;
use crate::fbits;

/// Policy for choosing the target index count of a simplification pass.
///
/// Either an absolute index count, or a proportional factor applied to the
/// current index count. The factor is carried as the bit pattern of an IEEE
/// 754 single-precision value, so that the policy can be evaluated exactly
/// in integer arithmetic.
#[derive(Debug, Clone, Copy, PartialEq)]
pub enum TargetIndices {
    Count(usize),
    Multiplier(u32),
}

impl TargetIndices {
    /// The index count that the policy derives from the current count: an
    /// absolute count is taken verbatim; a factor scales the current count
    /// down, rounds to a whole number of triangles and keeps at least one.
    /// Either way the result never exceeds the current count.
    pub open spec fn spec_count(self, current: nat) -> nat {
        let c = match self {
            TargetIndices::Count(c) => c as nat,
            TargetIndices::Multiplier(bits) => {
                let t = (fbits::scaled_sat(current, bits) / 3) * 3;
                if t < 3 {
                    3
                } else {
                    t
                }
            },
        };
        if c < current {
            c
        } else {
            current
        }
    }

    /// Derives the target index count for a mesh that currently has
    /// `current_count` indices.
    pub fn count(&self, current_count: usize) -> (r: usize)
        ensures
            r as nat == self.spec_count(current_count as nat),
            r <= current_count,
    {
        let c: usize = match self {
            TargetIndices::Count(c) => *c,
            TargetIndices::Multiplier(bits) => {
                let s = fbits::scale_by_bits(current_count, *bits);
                let t = (s / 3) * 3;
                if t < 3 {
                    3
                } else {
                    t
                }
            },
        };
        if c < current_count {
            c
        } else {
            current_count
        }
    }
}

impl Default for TargetIndices {
    /// Halve the index count by default; 0x3f000000 is the single-precision
    /// pattern of one half.
    fn default() -> (r: Self)
        ensures
            r == TargetIndices::Multiplier(0x3f000000u32),
    {
        TargetIndices::Multiplier(0x3f000000)
    }
}

/// Whenever the current count is a whole number of triangles, the target a
/// proportional policy derives is one too: every candidate the policy picks
/// from is a multiple of three.
pub proof fn lemma_multiplier_target_is_whole_triangles(current: nat, bits: u32)
    requires
        current % 3 == 0,
    ensures
        TargetIndices::Multiplier(bits).spec_count(current) % 3 == 0,
{
    let s = fbits::scaled_sat(current, bits);
    assert((s / 3) * 3 % 3 == 0) by (nonlinear_arith);
}

/// An absolute target of k indices that lies within the current count is
/// requested verbatim: the policy's final clamp is inactive, so a
/// simplification call asks the decimator for exactly k indices.
pub proof fn lemma_count_target_verbatim(current: nat, k: usize)
    requires
        k as nat <= current,
    ensures
        TargetIndices::Count(k).spec_count(current) == k as nat,
{
}

/// For a factor strictly between zero and one (one included), the scaled
/// count never exceeds the current count, so the final clamp of the policy
/// is inactive: the derived target is exactly
/// `max(3, floor(current * factor) / 3 * 3)`, and it stays within the
/// current count.
pub proof fn lemma_multiplier_target_within_current(current: nat, bits: u32)
    requires
        3 <= current,
        current % 3 == 0,
        current <= usize::MAX as nat,
        fbits::gt_zero(bits),
        fbits::le_one(bits),
    ensures
        fbits::scaled_floor(current, bits) <= current,
        TargetIndices::Multiplier(bits).spec_count(current) == ({
            let t = (fbits::scaled_floor(current, bits) / 3) * 3;
            if t < 3 {
                3nat
            } else {
                t
            }
        }),
        TargetIndices::Multiplier(bits).spec_count(current) <= current,
{
    let exp = fbits::exp_of(bits);
    let frac = fbits::frac_of(bits);
    let m = fbits::mantissa_of(bits);
    let sh = fbits::pow_shift_of(bits);
    // a strictly positive value no greater than one is finite and its
    // effective exponent is at most 127, so the shift is negative
    assert(exp < 255 || (exp == 255 && frac == 0));
    assert(exp <= 127);
    assert(sh <= -23);
    let d = (-sh) as nat;
    assert(d >= 23);
    // the significand is bounded by two to the power of the shift
    assert(frac < 0x800000) by (bit_vector)
        requires
            frac == bits & 0x7fffff;
    lemma2_to64();
    assert(pow2(23) == 0x800000 && pow2(24) == 0x1000000);
    if exp == 127 {
        // the value is exactly one
        assert(frac == 0);
        assert(m == pow2(23));
        assert(d == 23);
        assert(m <= pow2(d));
    } else if exp == 0 {
        assert(d == 149);
        assert(m < pow2(23));
        lemma_pow2_adds(23, 126);
        lemma_pow2_pos(126);
        assert(pow2(23) <= pow2(149)) by (nonlinear_arith)
            requires
                pow2(149) == pow2(23) * pow2(126) && pow2(126) >= 1;
        assert(m <= pow2(d));
    } else {
        // a normal value below one: the exponent is at most 126, so the
        // scaled significand bound leaves room for a factor of two
        assert(exp <= 126);
        assert(d >= 24);
        assert(m < pow2(24));
        lemma_pow2_adds(24, (d - 24) as nat);
        lemma_pow2_pos((d - 24) as nat);
        assert(pow2(24) <= pow2(d)) by (nonlinear_arith)
            requires
                pow2(d) == pow2(24) * pow2((d - 24) as nat) && pow2((d - 24) as nat) >= 1;
        assert(m <= pow2(d));
    }
    // floor(current * factor) <= current
    let prod = current * m;
    assert(prod <= current * pow2(d)) by (nonlinear_arith)
        requires
            prod == current * m && m <= pow2(d);
    lemma_pow2_pos(d);
    lemma_div_is_ordered(prod as int, (current * pow2(d)) as int, pow2(d) as int);
    lemma_div_multiples_vanish(current as int, pow2(d) as int);
    assert((current * pow2(d)) as int == pow2(d) as int * current as int) by (nonlinear_arith);
    assert((current * pow2(d)) as int / pow2(d) as int == current as int);
    assert(fbits::scaled_floor(current, bits) == prod / pow2(d));
    assert(fbits::scaled_floor(current, bits) <= current);
    // the saturation clamp is inactive
    assert(fbits::scaled_sat(current, bits) == fbits::scaled_floor(current, bits));
    // rounding down to a multiple of three stays at or below the input
    let v = fbits::scaled_floor(current, bits);
    assert((v / 3) * 3 <= v) by (nonlinear_arith);
    assert((v / 3) * 3 <= current);
}

} // verus!
