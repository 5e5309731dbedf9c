//! The integrator's step rule and the sampler's row order.
//!
//! One step of the radiance estimate has four possible outcomes, decided by
//! the recursion depth, whether the ray hit anything, and whether the hit
//! material scatters. The numeric radiance itself is floating-point work and
//! lives in the application around this crate; the decision is exact and
//! stands here. So does the sampler's vertical flip: the image is stored top
//! row first while scanlines count upward from the bottom.

use vstd::prelude::*;

verus! {

/// The outcome of one integrator step.
#[derive(Clone, Copy, Debug, PartialEq, Eq, Structural)]
pub enum RadianceStep {
    /// The depth budget is exhausted: zero contribution, not background.
    Cutoff,
    /// The ray escaped the scene: the background colour.
    Background,
    /// The hit material is terminal: its emission alone.
    Emit,
    /// The hit material scatters: its emission plus the attenuated radiance
    /// of the scattered ray, one depth lower.
    EmitAndScatter,
}

/// The step rule of the radiance estimate: depth exhaustion cuts the path
/// off before anything else, a miss yields the background, and a hit either
/// emits alone or emits and scatters onward.
pub open spec fn spec_radiance_step(depth: int, hit: bool, scatters: bool) -> RadianceStep {
    if depth <= 0 {
        RadianceStep::Cutoff
    } else if !hit {
        RadianceStep::Background
    } else if scatters {
        RadianceStep::EmitAndScatter
    } else {
        RadianceStep::Emit
    }
}

/// The outcome of one integrator step, given the remaining depth, whether
/// the ray hit anything, and whether the hit material scatters.
pub fn radiance_step(depth: usize, hit: bool, scatters: bool) -> (r: RadianceStep)
    ensures
        r == spec_radiance_step(depth as int, hit, scatters),
{
    if depth == 0 {
        RadianceStep::Cutoff
    } else if !hit {
        RadianceStep::Background
    } else if scatters {
        RadianceStep::EmitAndScatter
    } else {
        RadianceStep::Emit
    }
}

/// The scanline an output row samples: the sampler fills the image top row
/// first, while scanlines count upward from the bottom, so output row `row`
/// holds the samples of scanline `height - 1 - row`.
pub fn source_scanline(height: usize, row: usize) -> (y: usize)
    requires
        row < height,
    ensures
        y == height - 1 - row,
{
    height - 1 - row
}

} // verus!
