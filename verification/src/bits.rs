//! The supply values the monitor works with are 64-bit floating-point numbers
//! on the host. This crate carries each one as its IEEE 754 bit pattern in a
//! `u64`: the sign in bit 63, an 11-bit exponent below it, and a 52-bit
//! fraction. Finiteness and ordering of such values are pure functions of the
//! bit pattern, stated and verified here; only the arithmetic itself (parsing,
//! addition, formatting) is left to the host program.

use vstd::prelude::*;

verus! {

/// The biased exponent field of a 64-bit float's bit pattern.
pub open spec fn bits_exponent(bits: u64) -> u64 {
    (bits >> 52) & 0x7ff
}

/// The magnitude of the bit pattern: everything but the sign bit.
pub open spec fn bits_magnitude(bits: u64) -> u64 {
    bits & 0x7fff_ffff_ffff_ffff
}

/// The fraction field of the bit pattern: the low 52 bits.
pub open spec fn bits_fraction(bits: u64) -> u64 {
    bits & 0x000f_ffff_ffff_ffff
}

/// Is the sign bit set (the value is negative or a negative zero)?
pub open spec fn bits_is_negative(bits: u64) -> bool {
    (bits >> 63) == 1
}

/// A 64-bit float is finite exactly when its exponent field is not all ones.
pub open spec fn bits_is_finite(bits: u64) -> bool {
    bits_exponent(bits) != 0x7ff
}

/// A 64-bit float is a NaN exactly when its exponent field is all ones and
/// its fraction is not zero.
pub open spec fn bits_is_nan(bits: u64) -> bool {
    bits_exponent(bits) == 0x7ff && bits_fraction(bits) != 0
}

/// Both zeros (positive and negative) have magnitude zero.
pub open spec fn bits_is_zero(bits: u64) -> bool {
    bits_magnitude(bits) == 0
}

/// The ordering that `<` on 64-bit floats computes, as a function of the two
/// bit patterns. Per IEEE 754: any comparison with a NaN is false; the two
/// zeros are equal; otherwise a negative value is below a non-negative one,
/// and values of equal sign order by magnitude, reversed when both are
/// negative. Infinities take part with the greatest magnitudes.
pub open spec fn lt_via_bits(a: u64, b: u64) -> bool {
    if bits_is_nan(a) || bits_is_nan(b) {
        false
    } else if bits_is_zero(a) && bits_is_zero(b) {
        false
    } else if bits_is_negative(a) != bits_is_negative(b) {
        bits_is_negative(a)
    } else if !bits_is_negative(a) {
        bits_magnitude(a) < bits_magnitude(b)
    } else {
        bits_magnitude(b) < bits_magnitude(a)
    }
}

/// Decides finiteness of the float with the given bit pattern.
pub fn bits_finite(bits: u64) -> (r: bool)
    ensures
        r == bits_is_finite(bits),
{
    ((bits >> 52) & 0x7ff) != 0x7ff
}

/// Decides whether the supply is strictly below the configured minimum,
/// exactly as `<` on the two 64-bit floats would.
pub fn supply_below_minimum(supply_bits: u64, minimum_bits: u64) -> (r: bool)
    ensures
        r == lt_via_bits(supply_bits, minimum_bits),
{
    let a_exp: u64 = (supply_bits >> 52) & 0x7ff;
    let b_exp: u64 = (minimum_bits >> 52) & 0x7ff;
    let a_frac: u64 = supply_bits & 0x000f_ffff_ffff_ffff;
    let b_frac: u64 = minimum_bits & 0x000f_ffff_ffff_ffff;
    if (a_exp == 0x7ff && a_frac != 0) || (b_exp == 0x7ff && b_frac != 0) {
        return false;
    }
    let a_mag: u64 = supply_bits & 0x7fff_ffff_ffff_ffff;
    let b_mag: u64 = minimum_bits & 0x7fff_ffff_ffff_ffff;
    if a_mag == 0 && b_mag == 0 {
        return false;
    }
    let a_neg: bool = (supply_bits >> 63) == 1;
    let b_neg: bool = (minimum_bits >> 63) == 1;
    if a_neg != b_neg {
        a_neg
    } else if !a_neg {
        a_mag < b_mag
    } else {
        b_mag < a_mag
    }
}

/// The threshold check is strict: no value, whatever its bit pattern, lies
/// below itself, so an aggregate exactly equal to the minimum does not
/// trigger a notification.
pub proof fn lemma_threshold_is_strict(bits: u64)
    ensures
        !lt_via_bits(bits, bits),
{
}

/// But any drop triggers: for a positive finite minimum, the next
/// representable value below it (for such bit patterns, the predecessor
/// pattern) already compares strictly below it.
pub proof fn lemma_just_below_triggers(minimum: u64)
    requires
        !bits_is_negative(minimum),
        bits_is_finite(minimum),
        bits_magnitude(minimum) > 0,
    ensures
        lt_via_bits((minimum - 1) as u64, minimum),
{
    assert(!bits_is_negative(minimum) && bits_is_finite(minimum) && bits_magnitude(minimum) > 0
        ==> {
        &&& minimum >= 1
        &&& !bits_is_nan((minimum - 1) as u64)
        &&& !bits_is_nan(minimum)
        &&& !bits_is_negative((minimum - 1) as u64)
        &&& bits_magnitude((minimum - 1) as u64) < bits_magnitude(minimum)
    }) by (bit_vector);
}

} // verus!
