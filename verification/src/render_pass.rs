//! The render-target descriptor: what the output attachment of a compare
//! pass looks like and how it behaves.
//!
//! The descriptor is produced once per output format. The host translates
//! it into its GPU API's render-pass creation structure; format and layout
//! values pass through as the API's raw codes, which this module never
//! interprets.

use vstd::prelude::*;

verus! {

/// One color attachment: the host-given format, cleared on load, stored on
/// completion, transitioned to the resolved final layout.
#[derive(Clone, Copy, Debug, PartialEq, Eq, Structural)]
pub struct RenderTargetConfig {
    /// The output pixel format, as the GPU API's format code.
    pub format: u32,
    /// The attachment is cleared when the pass begins.
    pub clear_on_load: bool,
    /// The rendered contents are stored when the pass ends.
    pub store_on_end: bool,
    /// Exactly one color attachment, no depth or stencil attachment.
    pub color_attachment_count: u32,
    /// The layout the attachment is transitioned to after the pass, as the
    /// GPU API's layout code.
    pub final_layout: u32,
}

/// Describes the render target for `format`: clear on load, store on end,
/// a single color attachment, and the caller's final layout — or, when the
/// caller names none, the host's presentable default.
pub fn render_target_config(format: u32, final_layout: Option<u32>, default_layout: u32) -> (r:
    RenderTargetConfig)
    ensures
        r.format == format,
        r.clear_on_load,
        r.store_on_end,
        r.color_attachment_count == 1,
        r.final_layout == (match final_layout {
            Some(l) => l,
            None => default_layout,
        }),
{
    let resolved: u32 = match final_layout {
        Some(l) => l,
        None => default_layout,
    };
    RenderTargetConfig {
        format,
        clear_on_load: true,
        store_on_end: true,
        color_attachment_count: 1,
        final_layout: resolved,
    }
}

} // verus!
