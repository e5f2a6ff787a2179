//! The sampler both image slots read through.
//!
//! One sampler is built at construction and shared by every compare call:
//! linear filtering, clamp-to-edge addressing in all dimensions, anisotropy
//! and comparison disabled. The host translates this description into its
//! GPU API's sampler creation structure.

use vstd::prelude::*;

verus! {

/// The filtering and addressing configuration of the shared sampler.
#[derive(Clone, Copy, Debug, PartialEq, Eq, Structural)]
pub struct SamplerConfig {
    /// Clamp-to-edge addressing, in all three dimensions.
    pub clamp_to_edge: bool,
    /// Linear minification and magnification filtering.
    pub linear_filter: bool,
    /// Anisotropic filtering is disabled.
    pub anisotropy_enabled: bool,
    /// Depth-comparison sampling is disabled.
    pub compare_enabled: bool,
    /// Coordinates are normalized.
    pub unnormalized_coordinates: bool,
}

/// The one sampler configuration every compare call uses.
pub fn sampler_config() -> (r: SamplerConfig)
    ensures
        r.clamp_to_edge,
        r.linear_filter,
        !r.anisotropy_enabled,
        !r.compare_enabled,
        !r.unnormalized_coordinates,
{
    SamplerConfig {
        clamp_to_edge: true,
        linear_filter: true,
        anisotropy_enabled: false,
        compare_enabled: false,
        unnormalized_coordinates: false,
    }
}

} // verus!
