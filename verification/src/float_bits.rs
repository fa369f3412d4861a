use vstd::prelude::*;

verus! {

// A binary64 value is carried through the library as its IEEE 754 bit
// pattern (what `f64::to_bits` returns): 1 sign bit, 11 exponent bits and
// 52 fraction bits, most significant first.

/// The sign bit of the binary64 value encoded by `bits`.
pub open spec fn sign_bit(bits: u64) -> nat {
    bits as nat / 0x8000_0000_0000_0000
}

/// The biased exponent field of the binary64 value encoded by `bits`.
pub open spec fn exponent_field(bits: u64) -> nat {
    (bits as nat / 0x10_0000_0000_0000) % 0x800
}

/// The fraction field of the binary64 value encoded by `bits`.
pub open spec fn fraction_field(bits: u64) -> nat {
    bits as nat % 0x10_0000_0000_0000
}

/// `bits` encodes a NaN.
pub open spec fn encodes_nan(bits: u64) -> bool {
    exponent_field(bits) == 0x7ff && fraction_field(bits) != 0
}

/// `bits` encodes a finite value (neither an infinity nor a NaN).
pub open spec fn encodes_finite(bits: u64) -> bool {
    exponent_field(bits) != 0x7ff
}

/// `bits` encodes +0.0 or -0.0.
pub open spec fn encodes_zero(bits: u64) -> bool {
    exponent_field(bits) == 0 && fraction_field(bits) == 0
}

/// `bits` encodes a value `v` with `v > 0.0` (an infinity included, a NaN not).
pub open spec fn encodes_positive(bits: u64) -> bool {
    sign_bit(bits) == 0 && !encodes_nan(bits) && !encodes_zero(bits)
}

/// The bit pattern of positive infinity.
pub const POSITIVE_INFINITY_BITS: u64 = 0x7ff0_0000_0000_0000;

proof fn lemma_positive_range(bits: u64)
    ensures
        encodes_positive(bits) <==> (0 < bits && bits <= POSITIVE_INFINITY_BITS),
        (encodes_positive(bits) && encodes_finite(bits)) <==> (0 < bits && bits < POSITIVE_INFINITY_BITS),
{
    let b = bits as nat;
    let hi = b / 0x10_0000_0000_0000;
    assert(b == hi * 0x10_0000_0000_0000 + fraction_field(bits));
    assert(hi < 0x1000);
    assert(sign_bit(bits) == hi / 0x800);
    assert(exponent_field(bits) == hi % 0x800);
}

/// Whether the binary64 value encoded by `bits` is greater than zero, as
/// `value > 0.0` decides it.
pub fn is_positive(bits: u64) -> (r: bool)
    ensures
        r == encodes_positive(bits),
{
    proof { lemma_positive_range(bits); }
    0 < bits && bits <= POSITIVE_INFINITY_BITS
}

/// Whether the binary64 value encoded by `bits` is finite and greater than
/// zero, as `value.is_finite() && value > 0.0` decides it.
pub fn is_positive_finite(bits: u64) -> (r: bool)
    ensures
        r == (encodes_positive(bits) && encodes_finite(bits)),
{
    proof { lemma_positive_range(bits); }
    0 < bits && bits < POSITIVE_INFINITY_BITS
}

} // verus!
