//! Sampling-and-shading math kernel for a Monte-Carlo path tracer.
//!
//! The kernel models IEEE-754 binary32 values by their bit patterns
//! (`u32`), so that comparisons, NaN detection, lane merging and the
//! discrete CDF sampler's scan logic can be stated and proved exactly.
//! The surrounding renderer converts between bit patterns and native
//! floating-point values at the boundary and performs the
//! floating-point arithmetic itself.

pub mod binary32;
pub mod cdf;
pub mod lanes;
pub mod math;
pub mod spectrum;
