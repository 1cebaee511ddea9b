use vstd::prelude::*;
use vstd::arithmetic::power2::pow2;
use vstd::arithmetic::power2::lemma_pow2_adds;
use vstd::arithmetic::power2::lemma_pow2_pos;
use vstd::arithmetic::power2::lemma2_to64;
use vstd::arithmetic::power2::lemma2_to64_rest;

verus! {

/// Sign bit of an IEEE-754 binary64 pattern.
pub const F64_SIGN_MASK: u64 = 0x8000_0000_0000_0000;

/// Magnitude pattern of an infinity: exponent field all ones, fraction zero.
/// Patterns strictly above it (ignoring sign) are NaNs, strictly below are
/// finite.
pub const F64_INF_BITS: u64 = 0x7FF0_0000_0000_0000;

/// Bit pattern of the double 1.0.
pub const F64_ONE_BITS: u64 = 0x3FF0_0000_0000_0000;

/// 2^52: the weight of the exponent field within a magnitude pattern, and
/// the implicit leading significand bit of a normal number.
pub const F64_FRAC_WEIGHT: u64 = 0x0010_0000_0000_0000;

/// Bit pattern of the smallest positive normal double, 2^-1022.
pub const F64_MIN_POS_NORMAL_BITS: u64 = 0x0010_0000_0000_0000;

/// The magnitude pattern: the given pattern with its sign bit cleared.
pub open spec fn abs_bits(bits: u64) -> u64 {
    if bits >= F64_SIGN_MASK {
        (bits - F64_SIGN_MASK) as u64
    } else {
        bits
    }
}

/// The sign bit is set (true for every negative double, including -0.0,
/// and for NaNs whose sign bit is set).
pub open spec fn sign_bit_set(bits: u64) -> bool {
    bits >= F64_SIGN_MASK
}

/// The pattern encodes a NaN.
pub open spec fn is_nan_bits(bits: u64) -> bool {
    abs_bits(bits) > F64_INF_BITS
}

/// The pattern encodes a finite double (zero, subnormal or normal).
pub open spec fn is_finite_bits(bits: u64) -> bool {
    abs_bits(bits) < F64_INF_BITS
}

/// The pattern encodes +0.0 or -0.0 (the only two patterns equal to zero
/// under IEEE comparison).
pub open spec fn is_zero_bits(bits: u64) -> bool {
    abs_bits(bits) == 0
}

/// The IEEE comparison `x < 0.0`: the sign bit is set and the value is
/// neither a zero nor a NaN. Holds of -infinity.
pub open spec fn lt_zero_bits(bits: u64) -> bool {
    sign_bit_set(bits) && !is_zero_bits(bits) && !is_nan_bits(bits)
}

/// The IEEE comparison `x > 1.0`: for patterns with a clear sign bit the
/// ordering of finite-or-infinite doubles agrees with the ordering of their
/// patterns, and a NaN compares greater than nothing. Holds of +infinity.
pub open spec fn gt_one_bits(bits: u64) -> bool {
    !sign_bit_set(bits) && bits > F64_ONE_BITS && !is_nan_bits(bits)
}

/// Passes the unit-interval gate `!(x < 0.0 || x > 1.0)`. A NaN passes the
/// gate, since it fails both IEEE comparisons.
pub open spec fn unit_gate_bits(bits: u64) -> bool {
    !lt_zero_bits(bits) && !gt_one_bits(bits)
}

/// A finite double that is not strictly negative: the IEEE conjunction
/// `x.is_finite() && !(x < 0.0)`. Holds of both zeros.
pub open spec fn nonneg_finite_bits(bits: u64) -> bool {
    is_finite_bits(bits) && !lt_zero_bits(bits)
}

/// A finite double no smaller than the smallest positive normal, 2^-1022.
pub open spec fn ge_min_pos_normal_bits(bits: u64) -> bool {
    is_finite_bits(bits) && !sign_bit_set(bits) && bits >= F64_MIN_POS_NORMAL_BITS
}

/// The biased exponent field of the magnitude pattern.
pub open spec fn exp_field(bits: u64) -> u64 {
    abs_bits(bits) / F64_FRAC_WEIGHT
}

/// The fraction field of the magnitude pattern.
pub open spec fn frac_field(bits: u64) -> u64 {
    abs_bits(bits) % F64_FRAC_WEIGHT
}

/// The integral significand: a finite double's magnitude is exactly
/// `significand(bits) * 2^(binade(bits) - 1075)`, the implicit leading bit
/// being present exactly for normal numbers.
pub open spec fn significand(bits: u64) -> nat {
    if exp_field(bits) == 0 {
        frac_field(bits) as nat
    } else {
        (frac_field(bits) + F64_FRAC_WEIGHT) as nat
    }
}

/// The effective biased exponent: subnormals share the scale of the lowest
/// normal binade.
pub open spec fn binade(bits: u64) -> nat {
    if exp_field(bits) == 0 {
        1nat
    } else {
        exp_field(bits) as nat
    }
}

/// Exact statement that `|x| * k < 1` for the finite double encoded by
/// `bits` and a positive integer `k`. Since the magnitude is exactly
/// `significand * 2^(binade - 1075)`, the comparison is the integer
/// comparison `significand * k * 2^binade < 2^1075`.
pub open spec fn mag_times_lt_one(bits: u64, k: nat) -> bool {
    significand(bits) * k * pow2(binade(bits)) < pow2(1075)
}

/// An IEEE-754 binary64 value, carried by its bit pattern and treated as
/// opaque by the library: the numeric formulas that consume it live with
/// the caller, while every domain decision about it is taken here at the
/// bit level against an exact specification.
#[derive(Clone, Copy, PartialEq, Eq, Structural, Debug)]
pub struct Real {
    pub bits: u64,
}

impl Real {
    /// Wraps a raw binary64 bit pattern.
    pub fn from_bits(bits: u64) -> (r: Real)
        ensures
            r.bits == bits,
    {
        Real { bits }
    }

    /// The raw binary64 bit pattern.
    pub fn bits(self) -> (r: u64)
        ensures
            r == self.bits,
    {
        self.bits
    }

    /// The double 1.0.
    pub fn one() -> (r: Real)
        ensures
            r.bits == F64_ONE_BITS,
    {
        Real { bits: F64_ONE_BITS }
    }

    /// The magnitude pattern of this value.
    pub fn abs_pattern(self) -> (r: u64)
        ensures
            r == abs_bits(self.bits),
    {
        if self.bits >= F64_SIGN_MASK {
            self.bits - F64_SIGN_MASK
        } else {
            self.bits
        }
    }

    /// Whether this value is finite (zero, subnormal or normal).
    pub fn is_finite(self) -> (r: bool)
        ensures
            r == is_finite_bits(self.bits),
    {
        self.abs_pattern() < F64_INF_BITS
    }

    /// Whether this value is a NaN.
    pub fn is_nan(self) -> (r: bool)
        ensures
            r == is_nan_bits(self.bits),
    {
        self.abs_pattern() > F64_INF_BITS
    }

    /// Whether this value equals zero under IEEE comparison.
    pub fn is_zero_valued(self) -> (r: bool)
        ensures
            r == is_zero_bits(self.bits),
    {
        self.abs_pattern() == 0
    }

    /// The IEEE comparison `self < 0.0`.
    pub fn is_strictly_negative(self) -> (r: bool)
        ensures
            r == lt_zero_bits(self.bits),
    {
        let a = self.abs_pattern();
        self.bits >= F64_SIGN_MASK && a != 0 && a <= F64_INF_BITS
    }

    /// The IEEE comparison `self > 1.0`.
    pub fn is_above_one(self) -> (r: bool)
        ensures
            r == gt_one_bits(self.bits),
    {
        self.bits < F64_SIGN_MASK && self.bits > F64_ONE_BITS && self.bits <= F64_INF_BITS
    }

    /// The unit-interval gate `!(self < 0.0 || self > 1.0)`.
    pub fn passes_unit_gate(self) -> (r: bool)
        ensures
            r == unit_gate_bits(self.bits),
    {
        !self.is_strictly_negative() && !self.is_above_one()
    }

    /// Finite and not strictly negative.
    pub fn is_nonneg_finite(self) -> (r: bool)
        ensures
            r == nonneg_finite_bits(self.bits),
    {
        self.is_finite() && !self.is_strictly_negative()
    }

    /// Decides, exactly, whether `|self| * k < 1` holds of the real number
    /// this finite double denotes and a positive integer `k`. The decision
    /// is taken in exact integer arithmetic over the significand and the
    /// exponent, with no rounding anywhere.
    pub fn magnitude_times_lt_one(self, k: usize) -> (r: bool)
        requires
            is_finite_bits(self.bits),
            k >= 1,
        ensures
            r == mag_times_lt_one(self.bits, k as nat),
    {
        let a = self.abs_pattern();
        let e: u64 = a / F64_FRAC_WEIGHT;
        let m: u64 = a % F64_FRAC_WEIGHT;
        let sig: u64 = if e == 0 { m } else { m + F64_FRAC_WEIGHT };
        let se: u64 = if e == 0 { 1 } else { e };
        proof {
            assert(e == exp_field(self.bits));
            assert(m == frac_field(self.bits));
            assert(sig == significand(self.bits));
            assert(se == binade(self.bits));
            assert(m < F64_FRAC_WEIGHT);
            assert(sig < 0x20_0000_0000_0000);
            assert(1 <= se);
        }
        if se >= 1075 {
            proof {
                lemma_pow2_pos(1075);
                lemma_pow2_pos((se - 1075) as nat);
                lemma_pow2_adds(1075, (se - 1075) as nat);
                assert(pow2(se as nat) >= pow2(1075)) by (nonlinear_arith)
                    requires
                        pow2(se as nat) == pow2(1075) * pow2((se - 1075) as nat),
                        pow2(1075) >= 1,
                        pow2((se - 1075) as nat) >= 1,
                ;
                assert(sig as nat * (k as nat) * pow2(se as nat) >= pow2(1075)) by (nonlinear_arith)
                    requires
                        sig >= 1,
                        k >= 1,
                        pow2(se as nat) >= pow2(1075),
                        pow2(1075) >= 1,
                ;
            }
            false
        } else {
            let s: u64 = 1075 - se;
            proof {
                lemma_pow2_pos(se as nat);
                lemma_pow2_pos(s as nat);
                lemma_pow2_adds(s as nat, se as nat);
                assert(pow2(1075) == pow2(s as nat) * pow2(se as nat));
            }
            if s >= 117 {
                proof {
                    lemma2_to64();
                    lemma2_to64_rest();
                    lemma_pow2_adds(53, 64);
                    assert(pow2(117) == 0x20_0000_0000_0000_0000_0000_0000_0000);
                    lemma_pow2_pos((s - 117) as nat);
                    lemma_pow2_adds(117, (s - 117) as nat);
                    assert(pow2(s as nat) >= pow2(117)) by (nonlinear_arith)
                        requires
                            pow2(s as nat) == pow2(117) * pow2((s - 117) as nat),
                            pow2(117) >= 1,
                            pow2((s - 117) as nat) >= 1,
                    ;
                    assert(sig as nat * (k as nat) * pow2(se as nat) < pow2(1075)) by (nonlinear_arith)
                        requires
                            sig < 0x20_0000_0000_0000,
                            k < 0x1_0000_0000_0000_0000,
                            pow2(117) == 0x20_0000_0000_0000_0000_0000_0000_0000,
                            pow2(117) <= pow2(s as nat),
                            pow2(se as nat) >= 1,
                            pow2(1075) == pow2(s as nat) * pow2(se as nat),
                    ;
                }
                true
            } else {
                proof {
                    lemma2_to64();
                    lemma2_to64_rest();
                    lemma_pow2_adds(53, 64);
                    assert(pow2(117) == 0x20_0000_0000_0000_0000_0000_0000_0000);
                    assert(sig as nat * (k as nat) < pow2(117)) by (nonlinear_arith)
                        requires
                            sig < 0x20_0000_0000_0000,
                            k < 0x1_0000_0000_0000_0000,
                            pow2(117) == 0x20_0000_0000_0000_0000_0000_0000_0000,
                    ;
                }
                let prod: u128 = (sig as u128) * (k as u128);
                let mut p: u128 = 1;
                let mut i: u64 = 0;
                proof {
                    lemma2_to64();
                }
                while i < s
                    invariant
                        i <= s,
                        s < 117,
                        p == pow2(i as nat),
                    decreases s - i,
                {
                    proof {
                        lemma_pow2_adds(i as nat, 1);
                        lemma2_to64();
                        assert(pow2((i + 1) as nat) == pow2(i as nat) * 2);
                        lemma_pow2_adds(116, 11);
                        lemma_pow2_adds(53, 63);
                        lemma2_to64_rest();
                        assert(pow2(116) == 0x10_0000_0000_0000_0000_0000_0000_0000);
                        if i + 1 < 117 {
                            lemma_pow2_pos((116 - (i + 1)) as nat);
                            lemma_pow2_adds((i + 1) as nat, (116 - (i + 1)) as nat);
                            assert(pow2((i + 1) as nat) <= pow2(116)) by (nonlinear_arith)
                                requires
                                    pow2(116) == pow2((i + 1) as nat) * pow2((116 - (i + 1)) as nat),
                                    pow2((i + 1) as nat) >= 0,
                                    pow2((116 - (i + 1)) as nat) >= 1,
                            ;
                        }
                    }
                    p = p * 2;
                    i = i + 1;
                }
                let r = prod < p;
                proof {
                    if prod < p {
                        assert(sig as nat * (k as nat) * pow2(se as nat) < pow2(1075)) by (nonlinear_arith)
                            requires
                                (sig as nat) * (k as nat) < pow2(s as nat),
                                pow2(se as nat) >= 1,
                                pow2(1075) == pow2(s as nat) * pow2(se as nat),
                        ;
                    } else {
                        assert(sig as nat * (k as nat) * pow2(se as nat) >= pow2(1075)) by (nonlinear_arith)
                            requires
                                (sig as nat) * (k as nat) >= pow2(s as nat),
                                pow2(se as nat) >= 1,
                                pow2(1075) == pow2(s as nat) * pow2(se as nat),
                        ;
                    }
                }
                r
            }
        }
    }

    /// Finite and at least the smallest positive normal double.
    pub fn is_ge_min_pos_normal(self) -> (r: bool)
        ensures
            r == ge_min_pos_normal_bits(self.bits),
    {
        self.is_finite() && self.bits < F64_SIGN_MASK && self.bits >= F64_MIN_POS_NORMAL_BITS
    }
}

} // verus!
