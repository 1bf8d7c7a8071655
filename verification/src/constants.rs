//! Published constants.
//!
//! A constant that is a floating-point number is published as the bits of an
//! IEEE 754 double, which `f64::from_bits` turns into the number.

use vstd::prelude::*;

verus! {

/// The Euler-Mascheroni constant, as the bits of the double nearest to it.
pub const EULER_GAMMA_BITS: u64 = 0x3FE2_788C_FC6F_B619;

/// The first 64 decimal places of the Euler-Mascheroni constant, as a whole
/// number: the constant is this over `10^64`, but for what follows those
/// places.
pub open spec fn euler_gamma_digits() -> int {
    57721566490153286060651209008240int * 100000000000000000000000000000000int
        + 24310421593359399235988057672349int
}

/// Whether the sign bit of a double is set.
pub open spec fn double_is_negative(bits: u64) -> bool {
    bits >> 63 == 1
}

/// The exponent field of a double: the eleven bits below the sign.
pub open spec fn double_exponent(bits: u64) -> int {
    ((bits >> 52) & 0x7FF) as int
}

/// The fraction field of a double: its low 52 bits.
pub open spec fn double_fraction(bits: u64) -> int {
    (bits & 0xF_FFFF_FFFF_FFFF) as int
}

/// `EULER_GAMMA_BITS` is a positive double with exponent field 1022 and a
/// fraction field that is not 0, so it stands for `(2^52 + fraction) / 2^53`
/// and the doubles next to it are `1 / 2^53` away. It is within half of that,
/// `1 / 2^54`, of the constant's 64 decimal places: no double is nearer to
/// them.
pub proof fn euler_gamma_bits_are_nearest()
    ensures
        !double_is_negative(EULER_GAMMA_BITS),
        double_exponent(EULER_GAMMA_BITS) == 1022,
        double_fraction(EULER_GAMMA_BITS) > 0,
        ({
            let significand: int = 0x10_0000_0000_0000 + double_fraction(EULER_GAMMA_BITS);
            let ten_to_32: int = 100000000000000000000000000000000;
            let ten_to_64: int = ten_to_32 * ten_to_32;
            let two_to_53: int = 0x20_0000_0000_0000;
            let twice_the_error: int = 2 * (significand * ten_to_64 - euler_gamma_digits()
                * two_to_53);
            -ten_to_64 <= twice_the_error <= ten_to_64
        }),
{
    assert(0x3FE2_788C_FC6F_B619u64 >> 63 == 0) by (bit_vector);
    assert((0x3FE2_788C_FC6F_B619u64 >> 52) & 0x7FF == 1022) by (bit_vector);
    assert(0x3FE2_788C_FC6F_B619u64 & 0xF_FFFF_FFFF_FFFF == 0x2_788C_FC6F_B619) by (bit_vector);
}

} // verus!
