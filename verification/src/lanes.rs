//! A 4-wide lane batch of binary32 bit patterns: the value type that
//! stands for one SIMD register of four independent floating-point
//! lanes.  Lane merging is the bitwise select that SIMD blends
//! perform, so it is stated and proved exactly on the bits.

use vstd::prelude::*;

verus! {

/// Four binary32 bit patterns processed together, one per lane.
#[derive(Clone, Copy, Debug)]
pub struct Lanes(pub [u32; 4]);

/// The bitwise select that a SIMD blend performs on one lane: where
/// `m` has a 1 bit the result takes the bit of `t`, elsewhere the bit
/// of `f`.  Comparison masks are all ones or all zeroes per lane, so
/// on them this selects one operand whole.
pub open spec fn select_bits(m: u32, t: u32, f: u32) -> u32 {
    (m & t) | (!m & f)
}

/// `r` is the lanewise bitwise select of `t` and `f` under mask `m`.
pub open spec fn is_merge(m: Lanes, t: Lanes, f: Lanes, r: Lanes) -> bool {
    &&& r.0[0] == select_bits(m.0[0], t.0[0], f.0[0])
    &&& r.0[1] == select_bits(m.0[1], t.0[1], f.0[1])
    &&& r.0[2] == select_bits(m.0[2], t.0[2], f.0[2])
    &&& r.0[3] == select_bits(m.0[3], t.0[3], f.0[3])
}

/// Every lane of `l` holds the pattern `v`.
pub open spec fn is_splat(v: u32, l: Lanes) -> bool {
    &&& l.0[0] == v
    &&& l.0[1] == v
    &&& l.0[2] == v
    &&& l.0[3] == v
}

impl Lanes {
    /// The batch holding `v` in all four lanes.
    pub fn splat(v: u32) -> (r: Lanes)
        ensures
            is_splat(v, r),
    {
        Lanes([v, v, v, v])
    }

    /// Merge two batches lanewise: where `mask` has 1 bits the result
    /// takes `tru`, elsewhere `fals`.
    pub fn merge(mask: Lanes, tru: Lanes, fals: Lanes) -> (r: Lanes)
        ensures
            is_merge(mask, tru, fals, r),
    {
        Lanes([
            (mask.0[0] & tru.0[0]) | (!mask.0[0] & fals.0[0]),
            (mask.0[1] & tru.0[1]) | (!mask.0[1] & fals.0[1]),
            (mask.0[2] & tru.0[2]) | (!mask.0[2] & fals.0[2]),
            (mask.0[3] & tru.0[3]) | (!mask.0[3] & fals.0[3]),
        ])
    }
}

} // verus!
