//! Surface sizing: the observed window size and the configuration rule.
//!
//! The surface is reconfigured synchronously on every resize. A degenerate
//! size (zero width or height) is tolerated by clamping each dimension to a
//! minimum of 1, so a render is never attempted against a zero-sized target.

use vstd::prelude::*;

verus! {

/// A window size in physical pixels, as the windowing system reports it.
#[derive(Clone, Copy, PartialEq, Eq, Structural, Debug)]
pub struct SurfaceSize {
    pub width: u32,
    pub height: u32,
}

/// The part of a surface configuration that the core decides: the target
/// extent, never degenerate. Pixel format and presentation mode come from
/// the GPU backend and stay with the driver.
#[derive(Clone, Copy, PartialEq, Eq, Structural, Debug)]
pub struct SurfaceConfig {
    pub width: u32,
    pub height: u32,
}

/// A dimension clamped to the minimum extent of 1.
pub open spec fn spec_clamp_dim(d: u32) -> u32 {
    if d == 0 { 1 } else { d }
}

/// The configuration the surface must hold after observing `size`.
pub open spec fn spec_config_for(size: SurfaceSize) -> SurfaceConfig {
    SurfaceConfig { width: spec_clamp_dim(size.width), height: spec_clamp_dim(size.height) }
}

impl SurfaceConfig {
    /// Both extents are at least 1.
    pub open spec fn non_degenerate(self) -> bool {
        self.width >= 1 && self.height >= 1
    }
}

/// The configuration to apply for an observed window size: the size with
/// each dimension clamped to a minimum of 1.
pub fn config_for(size: SurfaceSize) -> (c: SurfaceConfig)
    ensures
        c == spec_config_for(size),
        c.non_degenerate(),
{
    let width: u32 = if size.width == 0 { 1 } else { size.width };
    let height: u32 = if size.height == 0 { 1 } else { size.height };
    SurfaceConfig { width, height }
}

} // verus!
