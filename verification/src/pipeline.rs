//! The fixed-function state of the graphics pipeline.
//!
//! The pipeline draws one full-screen triangle with no vertex-buffer input;
//! the fragment stage composites the two images and the divider band. This
//! module fixes every piece of that state the design decides — the host
//! translates it into its GPU API's pipeline creation structures, and the
//! binding layout below shapes the per-call resource bindings.

use vstd::prelude::*;
use crate::descriptors::IMAGE_SAMPLER_COUNT;
use crate::push_constants::{PUSH_CONSTANT_CEILING, PUSH_CONSTANT_SIZE};
use crate::Extent2d;

verus! {

/// One slot of the binding layout: a fragment-stage-readable combined
/// image sampler.
#[derive(Clone, Copy, Debug, PartialEq, Eq, Structural)]
pub struct BindingSlotDesc {
    /// The binding index the shader addresses the slot by.
    pub binding: u32,
    /// One descriptor per slot.
    pub descriptor_count: u32,
    /// The slot is visible to the fragment stage only.
    pub fragment_stage_only: bool,
}

/// The binding layout of every compare call: two image slots, bindings 0
/// and 1, each a single fragment-stage combined image sampler.
pub fn binding_layout_slots() -> (r: Vec<BindingSlotDesc>)
    ensures
        r@.len() == IMAGE_SAMPLER_COUNT as nat,
        forall|i: int|
            0 <= i < r@.len() ==> r@[i] == (BindingSlotDesc {
                binding: i as u32,
                descriptor_count: 1,
                fragment_stage_only: true,
            }),
{
    let mut r: Vec<BindingSlotDesc> = Vec::new();
    r.push(BindingSlotDesc { binding: 0, descriptor_count: 1, fragment_stage_only: true });
    r.push(BindingSlotDesc { binding: 1, descriptor_count: 1, fragment_stage_only: true });
    r
}

/// The fixed pipeline state of the compare draw.
#[derive(Clone, Copy, Debug, PartialEq, Eq, Structural)]
pub struct PipelineConfig {
    /// No vertex-buffer input: the vertex stage synthesizes the triangle.
    pub vertex_binding_count: u32,
    pub vertex_attribute_count: u32,
    /// Triangles, no primitive restart.
    pub triangle_list: bool,
    /// Viewport and scissor cover the whole output.
    pub viewport_width: u32,
    pub viewport_height: u32,
    pub scissor_width: u32,
    pub scissor_height: u32,
    /// Depth and stencil testing are disabled.
    pub depth_test_enabled: bool,
    pub stencil_test_enabled: bool,
    /// Standard alpha blending: source alpha against one minus source
    /// alpha.
    pub alpha_blend_enabled: bool,
    /// The fragment-stage push-constant range, in bytes.
    pub push_constant_bytes: u32,
    /// One color attachment.
    pub color_attachment_count: u32,
}

/// The pipeline state for an output of the given extent. The push-constant
/// range is exactly the encoded block and stays under the GPU API's
/// 128-byte ceiling.
pub fn pipeline_config(extent: Extent2d) -> (r: PipelineConfig)
    ensures
        r.vertex_binding_count == 0,
        r.vertex_attribute_count == 0,
        r.triangle_list,
        r.viewport_width == extent.width,
        r.viewport_height == extent.height,
        r.scissor_width == extent.width,
        r.scissor_height == extent.height,
        !r.depth_test_enabled,
        !r.stencil_test_enabled,
        r.alpha_blend_enabled,
        r.push_constant_bytes == PUSH_CONSTANT_SIZE as u32,
        r.push_constant_bytes <= PUSH_CONSTANT_CEILING as u32,
        r.color_attachment_count == 1,
{
    PipelineConfig {
        vertex_binding_count: 0,
        vertex_attribute_count: 0,
        triangle_list: true,
        viewport_width: extent.width,
        viewport_height: extent.height,
        scissor_width: extent.width,
        scissor_height: extent.height,
        depth_test_enabled: false,
        stencil_test_enabled: false,
        alpha_blend_enabled: true,
        push_constant_bytes: 24,
        color_attachment_count: 1,
    }
}

} // verus!
