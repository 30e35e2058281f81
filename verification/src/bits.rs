//! Verified boundary over the `bit_field` crate's bit-range accessors, and
//! small bit-level lemmas shared by the register modules.

use vstd::prelude::*;

use bit_field::BitField;

verus! {

/// Relies on `<u32 as bit_field::BitField>::get_bits`: returns the bits of
/// `v` at positions `lo..hi`, shifted down so that bit `lo` lands at bit
/// zero.  The contract states the crate's own shift formulation.
#[verifier::external_body]
pub(crate) fn get_bits_u32(v: u32, lo: usize, hi: usize) -> (r: u32)
    requires
        lo < hi <= 32,
    ensures
        r == v << ((32 - hi) as u32) >> ((32 - hi) as u32) >> (lo as u32),
{
    v.get_bits(lo..hi)
}

/// Relies on `<u32 as bit_field::BitField>::set_bits`: returns `v` with the
/// bits at positions `lo..hi` replaced by `value`.  The crate panics when
/// `value` does not fit in `hi - lo` bits, so the caller must rule that out;
/// the contract states the crate's own mask formulation.
#[verifier::external_body]
pub(crate) fn set_bits_u32(v: u32, lo: usize, hi: usize, value: u32) -> (r: u32)
    requires
        lo < hi <= 32,
        value << ((32 - (hi - lo)) as u32) >> ((32 - (hi - lo)) as u32) == value,
    ensures
        r == (v & !(!0u32 << ((32 - hi) as u32) >> ((32 - hi) as u32) >> (lo as u32) << (lo
            as u32))) | (value << (lo as u32)),
{
    let mut x = v;
    x.set_bits(lo..hi, value);
    x
}

/// Bitwise-or with zero changes nothing; the plain solver treats `|` as
/// uninterpreted, so callers that leave a field clear invoke this.
pub(crate) proof fn lemma_or_zero()
    by (bit_vector)
    ensures
        forall|x: u32| #[trigger] (x | 0) == x,
{
}

} // verus!
