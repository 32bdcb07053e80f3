//! Color value types: a scalar RGB triple and its 4-lane batched
//! counterpart, both holding binary32 bit patterns, with the
//! detection and lane-shuffling operations the integrator relies on.
//! The arithmetic on channel values is floating-point work and lives
//! with the renderer; what is stated here — NaN detection, the
//! blackness test, lane merge, splat and the lane transpose — is
//! decided exactly on the bit patterns.

use vstd::prelude::*;

use crate::binary32::is_nan_bits;
use crate::binary32::lt_bits;
use crate::binary32::max_bits;
use crate::binary32::is_nan;
use crate::binary32::lt;
use crate::binary32::max;
use crate::lanes::Lanes;
use crate::lanes::is_merge;
use crate::lanes::is_splat;

verus! {

/// Bit pattern of 1e-4, the threshold under which a color counts as black.
pub const BLACK_THRESHOLD_BITS: u32 = 0x38d1_b717;

/// A scalar linear RGB color; each channel is a binary32 bit pattern.
#[derive(Clone, Copy, Debug, PartialEq, Eq, Structural)]
pub struct Srgb {
    pub r: u32,
    pub g: u32,
    pub b: u32,
}

/// A 4-lane batch of colors: each channel holds one lane per color.
#[derive(Clone, Copy, Debug)]
pub struct WSrgb {
    pub r: Lanes,
    pub g: Lanes,
    pub b: Lanes,
}

impl Srgb {
    /// The color with the given channel patterns.
    pub fn new(r: u32, g: u32, b: u32) -> (c: Srgb)
        ensures
            c == (Srgb { r, g, b }),
    {
        Srgb { r, g, b }
    }

    /// The all-zero color.
    pub fn zero() -> (c: Srgb)
        ensures
            c == (Srgb { r: crate::binary32::ZERO_BITS, g: crate::binary32::ZERO_BITS, b: crate::binary32::ZERO_BITS }),
    {
        Srgb { r: 0x0000_0000, g: 0x0000_0000, b: 0x0000_0000 }
    }

    /// The all-one color.
    pub fn one() -> (c: Srgb)
        ensures
            c == (Srgb { r: crate::binary32::ONE_BITS, g: crate::binary32::ONE_BITS, b: crate::binary32::ONE_BITS }),
    {
        Srgb { r: 0x3f80_0000, g: 0x3f80_0000, b: 0x3f80_0000 }
    }

    /// The largest channel, under the NaN-ignoring maximum.
    pub open spec fn max_channel_spec(self) -> u32 {
        max_bits(max_bits(self.r, self.g), self.b)
    }

    /// Computes `max_channel_spec`.
    pub fn max_channel(&self) -> (m: u32)
        ensures
            m == self.max_channel_spec(),
    {
        max(max(self.r, self.g), self.b)
    }

    /// True when every channel lies below the blackness threshold:
    /// the largest channel compares strictly below 1e-4.
    pub fn is_black(&self) -> (black: bool)
        ensures
            black == lt_bits(self.max_channel_spec(), BLACK_THRESHOLD_BITS),
    {
        lt(self.max_channel(), BLACK_THRESHOLD_BITS)
    }

    /// True when some channel is a NaN, so the integrator can discard
    /// the sample before it contaminates an accumulated image.
    pub fn is_nan(&self) -> (nan: bool)
        ensures
            nan == (is_nan_bits(self.r) || is_nan_bits(self.g) || is_nan_bits(self.b)),
    {
        is_nan(self.r) || is_nan(self.g) || is_nan(self.b)
    }
}

impl WSrgb {
    /// Select between two batched colors lane by lane: where `mask`
    /// has 1 bits the result takes `a`, elsewhere `b`.  Comparison
    /// masks are all ones or all zeroes per lane, so on them whole
    /// lanes of `a` or `b` come through.
    pub fn merge(mask: Lanes, a: WSrgb, b: WSrgb) -> (c: WSrgb)
        ensures
            is_merge(mask, a.r, b.r, c.r),
            is_merge(mask, a.g, b.g, c.g),
            is_merge(mask, a.b, b.b, c.b),
    {
        WSrgb {
            r: Lanes::merge(mask, a.r, b.r),
            g: Lanes::merge(mask, a.g, b.g),
            b: Lanes::merge(mask, a.b, b.b),
        }
    }

    /// Broadcast one scalar color into all four lanes.
    pub fn splat(srgb: Srgb) -> (c: WSrgb)
        ensures
            is_splat(srgb.r, c.r),
            is_splat(srgb.g, c.g),
            is_splat(srgb.b, c.b),
    {
        WSrgb {
            r: Lanes::splat(srgb.r),
            g: Lanes::splat(srgb.g),
            b: Lanes::splat(srgb.b),
        }
    }

    /// Pack four scalar colors into one batch, lane `i` holding the
    /// `i`-th color (lane transpose in).
    pub fn from_channels(c: [Srgb; 4]) -> (w: WSrgb)
        ensures
            w.r.0[0] == c[0].r && w.r.0[1] == c[1].r && w.r.0[2] == c[2].r && w.r.0[3] == c[3].r,
            w.g.0[0] == c[0].g && w.g.0[1] == c[1].g && w.g.0[2] == c[2].g && w.g.0[3] == c[3].g,
            w.b.0[0] == c[0].b && w.b.0[1] == c[1].b && w.b.0[2] == c[2].b && w.b.0[3] == c[3].b,
    {
        WSrgb {
            r: Lanes([c[0].r, c[1].r, c[2].r, c[3].r]),
            g: Lanes([c[0].g, c[1].g, c[2].g, c[3].g]),
            b: Lanes([c[0].b, c[1].b, c[2].b, c[3].b]),
        }
    }

    /// Unpack the batch back into four scalar colors, one per lane
    /// (lane transpose out).
    pub fn to_channels(self) -> (c: [Srgb; 4])
        ensures
            c[0].r == self.r.0[0] && c[1].r == self.r.0[1] && c[2].r == self.r.0[2] && c[3].r == self.r.0[3],
            c[0].g == self.g.0[0] && c[1].g == self.g.0[1] && c[2].g == self.g.0[2] && c[3].g == self.g.0[3],
            c[0].b == self.b.0[0] && c[1].b == self.b.0[1] && c[2].b == self.b.0[2] && c[3].b == self.b.0[3],
    {
        [
            Srgb { r: self.r.0[0], g: self.g.0[0], b: self.b.0[0] },
            Srgb { r: self.r.0[1], g: self.g.0[1], b: self.b.0[1] },
            Srgb { r: self.r.0[2], g: self.g.0[2], b: self.b.0[2] },
            Srgb { r: self.r.0[3], g: self.g.0[3], b: self.b.0[3] },
        ]
    }
}

} // verus!
