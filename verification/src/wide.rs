//! Products that do not fit 128 bits, kept exactly in two halves.

use vstd::prelude::*;

verus! {

/// The weight of the high half: `2^128`.
pub open spec fn half_weight() -> int {
    u128::MAX + 1
}

/// A natural number in two 128-bit halves.
pub struct Wide {
    pub high: u128,
    pub low: u128,
}

impl Wide {
    /// The number that the halves stand for.
    pub open spec fn value(self) -> int {
        self.high * half_weight() + self.low
    }
}

/// The exact product of a 128-bit and a 64-bit number.
pub fn wide_product(a: u128, b: u64) -> (r: Wide)
    ensures
        r.value() == a * b,
{
    let a_low: u128 = a % 0x1_0000_0000_0000_0000;
    let a_high: u128 = a / 0x1_0000_0000_0000_0000;
    proof {
        assert(0 <= a_low * b <= 0xffff_ffff_ffff_ffff * 0xffff_ffff_ffff_ffff) by (nonlinear_arith)
            requires
                0 <= a_low <= 0xffff_ffff_ffff_ffff,
                0 <= b <= 0xffff_ffff_ffff_ffff,
        ;
        assert(0 <= a_high * b <= 0xffff_ffff_ffff_ffff * 0xffff_ffff_ffff_ffff)
            by (nonlinear_arith)
            requires
                0 <= a_high <= 0xffff_ffff_ffff_ffff,
                0 <= b <= 0xffff_ffff_ffff_ffff,
        ;
    }
    // a * b = upper * 2^64 + lower
    let lower: u128 = a_low * (b as u128);
    let upper: u128 = a_high * (b as u128);
    let upper_low: u128 = upper % 0x1_0000_0000_0000_0000;
    let upper_high: u128 = upper / 0x1_0000_0000_0000_0000;
    // a * b = upper_high * 2^128 + shifted + lower
    let shifted: u128 = upper_low * 0x1_0000_0000_0000_0000;
    proof {
        assert(a * b == upper * 0x1_0000_0000_0000_0000 + lower) by (nonlinear_arith)
            requires
                a == a_high * 0x1_0000_0000_0000_0000 + a_low,
                lower == a_low * b,
                upper == a_high * b,
        ;
        assert(upper * 0x1_0000_0000_0000_0000 == upper_high * half_weight() + shifted)
            by (nonlinear_arith)
            requires
                upper == upper_high * 0x1_0000_0000_0000_0000 + upper_low,
                shifted == upper_low * 0x1_0000_0000_0000_0000,
                half_weight() == 0x1_0000_0000_0000_0000 * 0x1_0000_0000_0000_0000,
        ;
    }
    if lower > u128::MAX - shifted {
        Wide { high: upper_high + 1, low: lower - (u128::MAX - shifted) - 1 }
    } else {
        Wide { high: upper_high, low: shifted + lower }
    }
}

/// Whether one wide number is at most another.
pub fn wide_le(a: &Wide, b: &Wide) -> (r: bool)
    ensures
        r == (a.value() <= b.value()),
{
    proof {
        assert(a.high < b.high ==> a.high * half_weight() + half_weight() <= b.high
            * half_weight()) by (nonlinear_arith);
        assert(b.high < a.high ==> b.high * half_weight() + half_weight() <= a.high
            * half_weight()) by (nonlinear_arith);
    }
    a.high < b.high || (a.high == b.high && a.low <= b.low)
}

} // verus!
