//! Variation axes of a font, and the canonical form of an axis value.
//!
//! An axis value is a single-precision IEEE-754 number, held as its 32-bit
//! pattern. Two patterns stand for the same number under the total order on
//! such numbers when both are NaN, when both are a zero of either sign, or
//! when they are the same pattern. The canonical form picks one pattern per
//! class, so that equal numbers always contribute equal bytes to a key. It is
//! the pattern that the `ordered-float` crate hashes for such a number.

use vstd::prelude::*;

verus! {

/// The pattern that stands for every NaN.
pub const CANONICAL_NAN: u32 = 0x7fc0_0000;

/// The pattern of negative zero.
pub const NEGATIVE_ZERO: u32 = 0x8000_0000;

/// The largest pattern, sign aside, that is not a NaN: infinity.
pub const INFINITY: u32 = 0x7f80_0000;

/// One setting of a variable font: an axis and the value chosen on it.
#[derive(Clone, Copy, Debug, PartialEq, Eq, Structural)]
pub struct Variation {
    /// The four bytes of the axis tag, first byte in the highest position.
    pub tag: u32,
    /// The bit pattern of the single-precision value.
    pub value: u32,
}

/// The pattern without its sign bit.
pub open spec fn magnitude(bits: u32) -> u32 {
    (bits % NEGATIVE_ZERO) as u32
}

/// The pattern is a NaN: all exponent bits set and a mantissa that is not zero.
pub open spec fn is_nan(bits: u32) -> bool {
    magnitude(bits) > INFINITY
}

/// The pattern is positive or negative zero.
pub open spec fn is_zero(bits: u32) -> bool {
    magnitude(bits) == 0
}

/// The two patterns are the same number in the total order: NaN equals
/// NaN, the two zeros are equal, and otherwise the patterns must agree.
pub open spec fn same_number(a: u32, b: u32) -> bool {
    if is_nan(a) {
        is_nan(b)
    } else if is_zero(a) {
        is_zero(b)
    } else {
        a == b
    }
}

/// The representative of the pattern's class.
pub open spec fn canonical(bits: u32) -> u32 {
    if is_nan(bits) {
        CANONICAL_NAN
    } else if is_zero(bits) {
        0
    } else {
        bits
    }
}

/// Computes the canonical form of an axis value.
pub fn canonical_bits(bits: u32) -> (c: u32)
    ensures
        c == canonical(bits),
{
    let magnitude: u32 = bits % NEGATIVE_ZERO;
    if magnitude > INFINITY {
        CANONICAL_NAN
    } else if magnitude == 0 {
        0
    } else {
        bits
    }
}

impl Variation {
    /// An axis setting from a tag and the bit pattern of a value.
    pub fn new(tag: u32, value: u32) -> (v: Variation)
        ensures
            v.tag == tag,
            v.value == value,
    {
        Variation { tag, value }
    }

    /// Same axis and same number.
    pub open spec fn same_setting(self, other: Variation) -> bool {
        self.tag == other.tag && same_number(self.value, other.value)
    }
}

/// Two patterns have the same canonical form exactly when they are the same
/// number.
pub proof fn lemma_canonical_decides_same_number(a: u32, b: u32)
    ensures
        canonical(a) == canonical(b) <==> same_number(a, b),
{
}

/// Positive and negative zero have one canonical form.
pub proof fn lemma_zeros_collapse()
    ensures
        canonical(0) == canonical(NEGATIVE_ZERO),
        same_number(0, NEGATIVE_ZERO),
{
}

/// Every NaN, whatever its sign and payload, has the one canonical form, and
/// so equals itself and every other NaN.
pub proof fn lemma_nan_is_one_number(a: u32, b: u32)
    requires
        is_nan(a),
        is_nan(b),
    ensures
        canonical(a) == CANONICAL_NAN,
        canonical(a) == canonical(b),
        same_number(a, a),
        same_number(a, b),
{
}

/// The canonical form is its own canonical form, and stands for the same
/// number as the pattern it came from.
pub proof fn lemma_canonical_is_stable(bits: u32)
    ensures
        canonical(canonical(bits)) == canonical(bits),
        same_number(bits, canonical(bits)),
{
}

/// Being the same number is an equivalence.
pub proof fn lemma_same_number_is_equivalence(a: u32, b: u32, c: u32)
    ensures
        same_number(a, a),
        same_number(a, b) ==> same_number(b, a),
        same_number(a, b) && same_number(b, c) ==> same_number(a, c),
{
}

} // verus!
