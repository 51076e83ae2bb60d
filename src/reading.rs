//! Numbers, instants and spans as the library holds them.

use vstd::prelude::*;

use vstd::arithmetic::power2::{lemma2_to64, lemma2_to64_rest, lemma_pow2_strictly_increases, pow2};
use vstd::bits::{lemma_u64_shl_is_mul, lemma_u64_shr_is_div};

verus! {

/// A number as the station sends it: the bits of an IEEE 754 double. Two readings
/// are equal when their bits are.
#[derive(Debug, Clone, Copy, PartialEq, Eq, Structural)]
pub struct Reading {
    pub bits: u64,
}

/// The biased exponent of the double with these bits.
pub open spec fn exponent_field(bits: u64) -> int {
    ((bits >> 52u64) & 0x7ffu64) as int
}

/// The fraction (the significand without its leading bit) of the double with these bits.
pub open spec fn fraction_field(bits: u64) -> int {
    (bits & 0xf_ffff_ffff_ffffu64) as int
}

/// Whether the sign bit is set.
pub open spec fn sign_bit(bits: u64) -> bool {
    bits >> 63u64 == 1
}

/// The magnitude of a finite double, rounded toward zero. Zero and the subnormal
/// values are below one.
pub open spec fn truncated_magnitude(bits: u64) -> int {
    let e = exponent_field(bits);
    let significand = fraction_field(bits) + pow2(52);
    if e == 0 {
        0
    } else if e >= 1075 {
        significand * (pow2((e - 1075) as nat) as int)
    } else {
        significand / (pow2((1075 - e) as nat) as int)
    }
}

/// `v`, or the bound of `i64` that it passes.
pub open spec fn saturate_i64(v: int) -> int {
    if v < i64::MIN {
        i64::MIN as int
    } else if v > i64::MAX {
        i64::MAX as int
    } else {
        v
    }
}

/// The integer that the double with these bits converts to with `as i64`: rounded
/// toward zero, held to the bounds of `i64`, and zero for a NaN.
pub open spec fn truncate_to_i64(bits: u64) -> int {
    if exponent_field(bits) == 0x7ff {
        if fraction_field(bits) != 0 {
            0
        } else if sign_bit(bits) {
            i64::MIN as int
        } else {
            i64::MAX as int
        }
    } else if sign_bit(bits) {
        saturate_i64(-truncated_magnitude(bits))
    } else {
        saturate_i64(truncated_magnitude(bits))
    }
}

impl Reading {
    pub fn from_bits(bits: u64) -> (r: Reading)
        ensures
            r.bits == bits,
    {
        Reading { bits }
    }

    pub fn to_bits(self) -> (r: u64)
        ensures
            r == self.bits,
    {
        self.bits
    }

    /// The reading as a whole number, rounded toward zero.
    pub fn truncate(self) -> (r: i64)
        ensures
            r == truncate_to_i64(self.bits),
    {
        let bits = self.bits;
        let exponent = (bits >> 52u64) & 0x7ffu64;
        let fraction = bits & 0xf_ffff_ffff_ffffu64;
        let negative = (bits >> 63u64) == 1;
        assert(exponent <= 0x7ff && fraction < 0x10_0000_0000_0000u64) by (bit_vector)
            requires
                exponent == (bits >> 52u64) & 0x7ffu64,
                fraction == bits & 0xf_ffff_ffff_ffffu64,
        ;
        proof {
            lemma2_to64();
            lemma2_to64_rest();
        }
        if exponent == 0x7ff {
            return if fraction != 0 {
                0
            } else if negative {
                i64::MIN
            } else {
                i64::MAX
            };
        }
        let significand = fraction | 0x10_0000_0000_0000u64;
        assert(significand == fraction + 0x10_0000_0000_0000u64) by (bit_vector)
            requires
                fraction < 0x10_0000_0000_0000u64,
                significand == fraction | 0x10_0000_0000_0000u64,
        ;
        if exponent < 1023 {
            proof {
                if exponent != 0 {
                    let k = (1075 - exponent) as nat;
                    if exponent < 1022 {
                        lemma_pow2_strictly_increases(53, k);
                    }
                    vstd::arithmetic::div_mod::lemma_basic_div(significand as int, pow2(k) as int);
                }
            }
            return 0;
        }
        if exponent >= 1086 {
            proof {
                if exponent > 1086 {
                    lemma_pow2_strictly_increases(11, (exponent - 1075) as nat);
                }
                assert(significand * pow2((exponent - 1075) as nat) >= 0x10_0000_0000_0000u64
                    * 0x800) by (nonlinear_arith)
                    requires
                        significand >= 0x10_0000_0000_0000u64,
                        pow2((exponent - 1075) as nat) >= 0x800,
                ;
            }
            return if negative {
                i64::MIN
            } else {
                i64::MAX
            };
        }
        let magnitude: u64 = if exponent >= 1075 {
            let shift = exponent - 1075;
            proof {
                if shift < 10 {
                    lemma_pow2_strictly_increases(shift as nat, 10);
                }
                vstd::arithmetic::power2::lemma_pow2_pos(shift as nat);
                assert(significand * pow2(shift as nat) < 0x20_0000_0000_0000u64 * 0x400)
                    by (nonlinear_arith)
                    requires
                        significand < 0x20_0000_0000_0000u64,
                        0 < pow2(shift as nat) <= 0x400,
                ;
                lemma_u64_shl_is_mul(significand, shift);
            }
            significand << shift
        } else {
            let shift = 1075 - exponent;
            proof {
                lemma_u64_shr_is_div(significand, shift);
                assert((significand as int) / (pow2(shift as nat) as int) <= significand) by {
                    vstd::arithmetic::div_mod::lemma_div_is_ordered_by_denominator(
                        significand as int,
                        1,
                        pow2(shift as nat) as int,
                    );
                    vstd::arithmetic::power2::lemma_pow2_pos(shift as nat);
                }
            }
            significand >> shift
        };
        assert(magnitude < 0x8000_0000_0000_0000u64);
        if negative {
            -(magnitude as i64)
        } else {
            magnitude as i64
        }
    }
}

/// An instant, as whole seconds since the Unix epoch (UTC).
#[derive(Debug, Clone, Copy, PartialEq, Eq, Structural)]
pub struct Timestamp {
    pub unix_seconds: i64,
}

/// A length of time, in whole seconds.
#[derive(Debug, Clone, Copy, PartialEq, Eq, Structural)]
pub struct TimeSpan {
    pub seconds: i128,
}

impl Timestamp {
    pub fn from_unix_seconds(unix_seconds: i64) -> (r: Timestamp)
        ensures
            r.unix_seconds == unix_seconds,
    {
        Timestamp { unix_seconds }
    }
}

impl TimeSpan {
    pub fn from_seconds(seconds: i64) -> (r: TimeSpan)
        ensures
            r.seconds == seconds,
    {
        TimeSpan { seconds: seconds as i128 }
    }

    pub fn from_minutes(minutes: i64) -> (r: TimeSpan)
        ensures
            r.seconds == minutes * 60,
    {
        TimeSpan { seconds: minutes as i128 * 60 }
    }
}

} // verus!
