//! Floats as bit patterns. A float is never computed with here: it is
//! carried as the bits of its IEEE 754 encoding. The one operation on them
//! is widening a single to the double of the same value.

use vstd::arithmetic::power2::{lemma2_to64, lemma_pow2_strictly_increases, lemma_pow2_unfold, pow2};
use vstd::prelude::*;

verus! {

/// A significand below 2^23 doubled until it has 24 bits, and the exponent
/// lowered once for each doubling. Zero stays as it is.
pub open spec fn normalized(significand: nat, exponent: int) -> (nat, int)
    decreases 0x100_0000 - significand,
{
    if significand == 0 || significand >= 0x80_0000 {
        (significand, exponent)
    } else {
        normalized(2 * significand, exponent - 1)
    }
}

/// The exponent field and the fraction field of the double that has the
/// value of the single with these two fields.
pub open spec fn widen_fields(exponent: nat, fraction: nat) -> (nat, nat) {
    if exponent == 0xff {
        // Infinity keeps an empty fraction; a NaN keeps its payload and is quiet.
        if fraction != 0 && fraction < 0x40_0000 {
            (0x7ff, fraction * 0x2000_0000 + 0x8_0000_0000_0000)
        } else {
            (0x7ff, fraction * 0x2000_0000)
        }
    } else if exponent != 0 {
        ((exponent + 896) as nat, fraction * 0x2000_0000)
    } else if fraction == 0 {
        (0, 0)
    } else {
        // A subnormal single is a normal double.
        let (significand, shifted) = normalized(fraction, 897);
        (shifted as nat, ((significand - 0x80_0000) * 0x2000_0000) as nat)
    }
}

/// The bits of the double that has the value of the single with the bits
/// `bits`: same sign, exponent and fraction as `widen_fields` gives them.
pub open spec fn widen(bits: u32) -> u64 {
    let sign = (bits / 0x8000_0000) as nat;
    let (exponent, fraction) = widen_fields(
        ((bits / 0x80_0000) % 0x100) as nat,
        (bits % 0x80_0000) as nat,
    );
    (sign * 0x8000_0000_0000_0000 + exponent * 0x10_0000_0000_0000 + fraction) as u64
}

/// Normalizing a fraction from exponent 897 takes at most 23 doublings.
fn normalize(fraction: u64) -> (fields: (u64, u64))
    requires
        0 < fraction < 0x80_0000,
    ensures
        (fields.0 as nat, fields.1 as int) == normalized(fraction as nat, 897),
        0x80_0000 <= fields.0 < 0x100_0000,
        874 <= fields.1 <= 897,
{
    let mut significand: u64 = fraction;
    let mut exponent: u64 = 897;
    let ghost mut steps: nat = 0;
    proof {
        lemma2_to64();
    }
    while significand < 0x80_0000
        invariant
            0 < significand < 0x100_0000,
            steps <= 23,
            exponent == 897 - steps,
            significand >= pow2(steps),
            normalized(significand as nat, exponent as int) == normalized(fraction as nat, 897),
        decreases 0x100_0000 - significand,
    {
        proof {
            lemma2_to64();
            if steps >= 23 {
                if steps > 23 {
                    lemma_pow2_strictly_increases(23, steps);
                }
                assert(false);
            }
            lemma_pow2_unfold(steps + 1);
            steps = steps + 1;
        }
        significand = significand * 2;
        exponent = exponent - 1;
    }
    (significand, exponent)
}

/// Widens a single to a double, bits to bits.
pub fn widen_single(bits: u32) -> (wide: u64)
    ensures
        wide == widen(bits),
{
    let sign: u64 = (bits / 0x8000_0000) as u64;
    let exponent: u64 = ((bits / 0x80_0000) % 0x100) as u64;
    let fraction: u64 = (bits % 0x80_0000) as u64;
    let high: u64 = sign * 0x8000_0000_0000_0000;
    if exponent == 0xff {
        if fraction != 0 && fraction < 0x40_0000 {
            high + 0x7ff * 0x10_0000_0000_0000 + (fraction * 0x2000_0000 + 0x8_0000_0000_0000)
        } else {
            high + 0x7ff * 0x10_0000_0000_0000 + fraction * 0x2000_0000
        }
    } else if exponent != 0 {
        high + (exponent + 896) * 0x10_0000_0000_0000 + fraction * 0x2000_0000
    } else if fraction == 0 {
        high
    } else {
        let (significand, shifted) = normalize(fraction);
        high + shifted * 0x10_0000_0000_0000 + (significand - 0x80_0000) * 0x2000_0000
    }
}

} // verus!
