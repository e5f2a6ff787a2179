//! The drawing commands a compare call records.
//!
//! A compare call never touches the GPU itself: it produces the exact,
//! deterministic sequence of commands below, and the host replays them into
//! its command recorder. Recording is all a compare call asks for —
//! submission and synchronization stay with the host.

use vstd::prelude::*;
use crate::push_constants::{Color, PushConstantBuffer};

verus! {

/// The color the output is cleared to when the render pass begins:
/// opaque black, each channel an IEEE 754 single bit pattern.
pub open spec fn spec_clear_color() -> Color {
    Color(0, 0, 0, 0x3f80_0000)
}

/// One recorded drawing command, in the host's command-recorder vocabulary.
#[derive(Clone, Copy, Debug, PartialEq, Eq, Structural)]
pub enum Cmd {
    /// Begin the render pass on the cached framebuffer, clearing the full
    /// output extent to `clear_color`.
    BeginRenderPass {
        render_pass: u64,
        framebuffer: u64,
        width: u32,
        height: u32,
        clear_color: Color,
    },
    /// Bind the graphics pipeline.
    BindPipeline { pipeline: u64 },
    /// Bind the binding instance the host allocated for this call.
    BindBindingInstance { pipeline_layout: u64 },
    /// Push the encoded divider parameters to the fragment stage.
    PushConstants { pipeline_layout: u64, block: PushConstantBuffer },
    /// Draw the full-screen primitive: one instance of three vertices, with
    /// no vertex-buffer input.
    Draw { vertex_count: u32, instance_count: u32 },
    /// End the render pass.
    EndRenderPass,
}

} // verus!
