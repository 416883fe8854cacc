//! Double-precision numbers that pass through: confidences and costs.
use vstd::prelude::*;

verus! {

/// A double, held by the bits of its IEEE 754 representation. Nothing here
/// computes with it.
#[derive(Clone, Copy, Debug, PartialEq, Eq, Structural, Hash)]
pub struct Double {
    pub bits: u64,
}

/// The bits of one half.
pub const HALF_BITS: u64 = 0x3FE0_0000_0000_0000;

/// The bits of positive infinity: above them come the NaNs and then every
/// number with a minus sign.
pub const INFINITY_BITS: u64 = 0x7FF0_0000_0000_0000;

impl Double {
    /// The numbers from one half to infinity: doubles without a sign are
    /// ordered as their bits are.
    pub open spec fn is_half_or_more(self) -> bool {
        HALF_BITS <= self.bits <= INFINITY_BITS
    }

    /// Whether the number is at least one half.
    pub fn half_or_more(self) -> (r: bool)
        ensures
            r == self.is_half_or_more(),
    {
        HALF_BITS <= self.bits && self.bits <= INFINITY_BITS
    }
}

// ---------------------------------------------------------------------------
// Laws
// ---------------------------------------------------------------------------
/// The exponent field of a double: the value of one with exponent `e` and no
/// sign lies from two to the power `e - 1023` up to twice that.
pub open spec fn exponent(d: Double) -> int {
    (d.bits as int / 0x10_0000_0000_0000) % 2048
}

/// The fraction field of a double.
pub open spec fn fraction(d: Double) -> int {
    d.bits as int % 0x10_0000_0000_0000
}

/// Whether a double has a minus sign.
pub open spec fn is_negative(d: Double) -> bool {
    d.bits as int / 0x8000_0000_0000_0000 == 1
}

/// At least one half are the numbers without a sign whose exponent is that of
/// one half or greater, infinity among them; what is not a number is not.
pub proof fn half_or_more_goes_by_the_exponent(d: Double)
    ensures
        d.is_half_or_more() <==> !is_negative(d) && 1022 <= exponent(d) && (exponent(d) < 2047
            || fraction(d) == 0),
{
}

} // verus!
