//! Lane-wide geometric value types and the scalar clamp utility.
//! The trigonometric and square-root work of the direction samplers
//! is floating-point arithmetic and lives with the renderer; the
//! clamp below needs only comparisons, which the bit-pattern model
//! decides exactly.

use vstd::prelude::*;

use crate::binary32::ONE_BITS;
use crate::binary32::ZERO_BITS;
use crate::binary32::max_wide_bits;
use crate::binary32::min_wide_bits;
use crate::binary32::max_wide;
use crate::binary32::min_wide;
use crate::lanes::Lanes;

verus! {

/// A lane-wide 3-vector: one 3-component vector per lane, stored as
/// three lane batches of binary32 bit patterns.
#[derive(Clone, Copy, Debug)]
pub struct WVec3 {
    pub x: Lanes,
    pub y: Lanes,
    pub z: Lanes,
}

/// A placement in lane-wide 3-space.  It currently carries a position
/// only; an orientation component is reserved for later.  A plain
/// copyable value with no identity beyond its fields.
#[derive(Clone, Copy, Debug)]
pub struct Transform {
    pub position: WVec3,
}

/// One lane of the clamp to [0, 1]: the SIMD minimum against 1.0,
/// then the SIMD maximum against 0.0.  A NaN lane therefore comes
/// out as 1.0, and -0.0 as +0.0, as the SIMD conventions give.
pub open spec fn saturate_bits(v: u32) -> u32 {
    max_wide_bits(min_wide_bits(v, ONE_BITS), ZERO_BITS)
}

/// The clamp really lands in [0, 1]: whatever a lane holds, a NaN
/// included, its result compares at least 0.0 and at most 1.0.
pub proof fn lemma_saturate_in_range(v: u32)
    ensures
        crate::binary32::ge_bits(saturate_bits(v), ZERO_BITS),
        crate::binary32::le_bits(saturate_bits(v), ONE_BITS),
{
    crate::binary32::lemma_zero_one_order();
}

/// Clamp every lane to [0, 1].
pub fn saturate(v: Lanes) -> (r: Lanes)
    ensures
        r.0[0] == saturate_bits(v.0[0]),
        r.0[1] == saturate_bits(v.0[1]),
        r.0[2] == saturate_bits(v.0[2]),
        r.0[3] == saturate_bits(v.0[3]),
{
    Lanes([
        max_wide(min_wide(v.0[0], ONE_BITS), ZERO_BITS),
        max_wide(min_wide(v.0[1], ONE_BITS), ZERO_BITS),
        max_wide(min_wide(v.0[2], ONE_BITS), ZERO_BITS),
        max_wide(min_wide(v.0[3], ONE_BITS), ZERO_BITS),
    ])
}

} // verus!
