//! A verified core for rendering a live side-by-side comparison of two
//! images with a configurable vertical divider.
//!
//! The crate decides everything that can be decided away from the GPU:
//! validating a compare request, placing the divider band in pixel space,
//! laying out the push-constant bytes, caching one framebuffer per output
//! target, accounting for the host's descriptor-pool capacity, planning the
//! exact command sequence of a draw, and ordering teardown. A thin host
//! layer owns the device and performs the GPU calls these plans describe.

pub mod cache;
pub mod commands;
pub mod descriptors;
pub mod divider;
pub mod pipeline;
pub mod push_constants;
pub mod render_pass;
pub mod sampler;

use vstd::prelude::*;

use crate::cache::FramebufferCache;
use crate::commands::{spec_clear_color, Cmd};
use crate::descriptors::{BindingPlan, DescriptorPoolState, IMAGE_SAMPLER_COUNT};
use crate::divider::{valid_position_bits, POSITION_ONE_BITS};
use crate::push_constants::{Color, PushConstantBuffer};

verus! {

/// Why a compare call failed.
#[derive(Clone, Copy, Debug, PartialEq, Eq, Structural)]
pub enum CompareError {
    /// The divider position does not encode a value in `[0, 1]`.
    InvalidRequest,
    /// The descriptor pool no longer holds the two image-binding slots the
    /// call needs: the host under-sized the pool.
    PoolExhausted,
}

/// An output extent, in device pixels.
#[derive(Clone, Copy, Debug, PartialEq, Eq, Structural)]
pub struct Extent2d {
    pub width: u32,
    pub height: u32,
}

/// Configuration of a single frame comparison operation. Ephemeral:
/// constructed and consumed within one compare call.
#[derive(Clone, Copy, Debug, PartialEq, Eq, Structural)]
pub struct FrameCompareInfo {
    /// The command recorder the host will replay the commands into.
    pub command_buffer: u64,
    /// The identity of the output target the frame is rendered to.
    pub output_target: u64,
    /// The first input image, shown left of the divider.
    pub left_image: u64,
    /// The second input image, shown right of the divider.
    pub right_image: u64,
    /// The horizontal divider position: the bit pattern of an IEEE 754
    /// single in `[0, 1]`.
    pub divider_position: u32,
    /// The divider width, in device pixels.
    pub divider_width: u8,
    /// The divider width divided by the output width, as an IEEE 754 single
    /// bit pattern. The host computes this quotient: that floating-point
    /// division is the one step of the request that stays outside the
    /// verified core.
    pub divider_width_normalized: u32,
    /// The divider color.
    pub divider_color: Color,
}

/// The default request: a divider of four device pixels at the middle of
/// the output (position one half), transparent black, every handle null.
pub open spec fn spec_default_info() -> FrameCompareInfo {
    FrameCompareInfo {
        command_buffer: 0,
        output_target: 0,
        left_image: 0,
        right_image: 0,
        divider_position: 0x3f00_0000,
        divider_width: 4,
        divider_width_normalized: 0,
        divider_color: Color(0, 0, 0, 0),
    }
}

/// A builder for [`FrameCompareInfo`], starting from the defaults of
/// [`spec_default_info`].
pub struct FrameCompareInfoBuilder {
    info: FrameCompareInfo,
}

impl FrameCompareInfoBuilder {
    /// The request the builder currently holds.
    pub closed spec fn spec_info(&self) -> FrameCompareInfo {
        self.info
    }

    /// Sets the command recorder handle.
    pub fn command_buffer(self, v: u64) -> (r: Self)
        ensures
            r.spec_info() == (FrameCompareInfo { command_buffer: v, ..self.spec_info() }),
    {
        FrameCompareInfoBuilder { info: FrameCompareInfo { command_buffer: v, ..self.info } }
    }

    /// Sets the output-target identity.
    pub fn output_target(self, v: u64) -> (r: Self)
        ensures
            r.spec_info() == (FrameCompareInfo { output_target: v, ..self.spec_info() }),
    {
        FrameCompareInfoBuilder { info: FrameCompareInfo { output_target: v, ..self.info } }
    }

    /// Sets the first (left) input image.
    pub fn left_image(self, v: u64) -> (r: Self)
        ensures
            r.spec_info() == (FrameCompareInfo { left_image: v, ..self.spec_info() }),
    {
        FrameCompareInfoBuilder { info: FrameCompareInfo { left_image: v, ..self.info } }
    }

    /// Sets the second (right) input image.
    pub fn right_image(self, v: u64) -> (r: Self)
        ensures
            r.spec_info() == (FrameCompareInfo { right_image: v, ..self.spec_info() }),
    {
        FrameCompareInfoBuilder { info: FrameCompareInfo { right_image: v, ..self.info } }
    }

    /// Sets the divider position (an IEEE 754 single bit pattern).
    pub fn divider_position(self, v: u32) -> (r: Self)
        ensures
            r.spec_info() == (FrameCompareInfo { divider_position: v, ..self.spec_info() }),
    {
        FrameCompareInfoBuilder { info: FrameCompareInfo { divider_position: v, ..self.info } }
    }

    /// Sets the divider width in device pixels.
    pub fn divider_width(self, v: u8) -> (r: Self)
        ensures
            r.spec_info() == (FrameCompareInfo { divider_width: v, ..self.spec_info() }),
    {
        FrameCompareInfoBuilder { info: FrameCompareInfo { divider_width: v, ..self.info } }
    }

    /// Sets the pre-normalized divider width (an IEEE 754 single bit
    /// pattern of width divided by output width).
    pub fn divider_width_normalized(self, v: u32) -> (r: Self)
        ensures
            r.spec_info() == (FrameCompareInfo { divider_width_normalized: v, ..self.spec_info() }),
    {
        FrameCompareInfoBuilder {
            info: FrameCompareInfo { divider_width_normalized: v, ..self.info },
        }
    }

    /// Sets the divider color.
    pub fn divider_color(self, v: Color) -> (r: Self)
        ensures
            r.spec_info() == (FrameCompareInfo { divider_color: v, ..self.spec_info() }),
    {
        FrameCompareInfoBuilder { info: FrameCompareInfo { divider_color: v, ..self.info } }
    }

    /// Finishes the builder.
    pub fn build(self) -> (r: FrameCompareInfo)
        ensures
            r == self.spec_info(),
    {
        self.info
    }
}

impl Default for FrameCompareInfoBuilder {
    /// A builder holding the default request.
    fn default() -> (r: Self)
        ensures
            r.spec_info() == spec_default_info(),
    {
        FrameCompareInfoBuilder { info: FrameCompareInfo {
            command_buffer: 0,
            output_target: 0,
            left_image: 0,
            right_image: 0,
            divider_position: 0x3f00_0000,
            divider_width: 4,
            divider_width_normalized: 0,
            divider_color: Color(0, 0, 0, 0),
        } }
    }
}

impl FrameCompareInfo {
    /// A builder holding the default request.
    pub fn builder() -> (r: FrameCompareInfoBuilder)
        ensures
            r.spec_info() == spec_default_info(),
    {
        FrameCompareInfoBuilder::default()
    }
}

/// The one-time GPU objects the host built for the comparator to own: the
/// render-target descriptor, the binding layout, the pipeline with its
/// layout, and the shared sampler.
#[derive(Clone, Copy, Debug, PartialEq, Eq, Structural)]
pub struct ComparatorResources {
    pub render_pass: u64,
    pub descriptor_set_layout: u64,
    pub pipeline_layout: u64,
    pub pipeline: u64,
    pub sampler: u64,
}

/// One GPU object the comparator owned, named for the host to release at
/// teardown.
#[derive(Clone, Copy, Debug, PartialEq, Eq, Structural)]
pub enum GpuResource {
    Sampler(u64),
    Framebuffer(u64),
    Pipeline(u64),
    PipelineLayout(u64),
    DescriptorSetLayout(u64),
    RenderPass(u64),
}

/// The abstract state of a comparator: its immutable one-time resources,
/// its output extent, the framebuffer cache (as a map from output-target
/// identity to framebuffer handle, plus the cached handles in insertion
/// order), and the descriptor-pool budget.
#[verifier::ext_equal]
pub ghost struct ComparatorView {
    pub render_pass: u64,
    pub descriptor_set_layout: u64,
    pub pipeline_layout: u64,
    pub pipeline: u64,
    pub sampler: u64,
    pub output_extent: Extent2d,
    pub framebuffers: Map<u64, u64>,
    pub framebuffer_handles: Seq<u64>,
    pub pool_capacity: u32,
    pub pool_remaining: u32,
}

/// A reusable comparator: owns the one-time GPU resources for its lifetime
/// and plans one draw per compare call.
pub struct FrameComparator {
    render_pass: u64,
    descriptor_set_layout: u64,
    pipeline_layout: u64,
    pipeline: u64,
    sampler: u64,
    output_extent: Extent2d,
    framebuffers: FramebufferCache,
    pool: DescriptorPoolState,
}

impl View for FrameComparator {
    type V = ComparatorView;

    closed spec fn view(&self) -> ComparatorView {
        ComparatorView {
            render_pass: self.render_pass,
            descriptor_set_layout: self.descriptor_set_layout,
            pipeline_layout: self.pipeline_layout,
            pipeline: self.pipeline,
            sampler: self.sampler,
            output_extent: self.output_extent,
            framebuffers: self.framebuffers@,
            framebuffer_handles: self.framebuffers.handle_seq(),
            pool_capacity: self.pool.spec_capacity(),
            pool_remaining: self.pool.spec_remaining(),
        }
    }
}

/// The request's divider position encodes a value in `[0, 1]`.
pub open spec fn spec_valid_request(info: FrameCompareInfo) -> bool {
    valid_position_bits(info.divider_position)
}

/// The push-constant block a request encodes.
pub open spec fn spec_push_block(info: FrameCompareInfo) -> PushConstantBuffer {
    PushConstantBuffer {
        divider_pos: info.divider_position,
        divider_width: info.divider_width_normalized,
        color: info.divider_color,
    }
}

/// The binding plan of one compare call: both input images through the
/// shared sampler, against the comparator's binding layout.
pub open spec fn spec_binding_plan(v: ComparatorView, info: FrameCompareInfo) -> BindingPlan {
    BindingPlan {
        layout: v.descriptor_set_layout,
        sampler: v.sampler,
        slot0_image: info.left_image,
        slot1_image: info.right_image,
    }
}

/// The exact command sequence of one compare call: begin the render pass on
/// the cached framebuffer clearing the full extent, bind the pipeline, bind
/// the per-call binding instance, push the divider parameters, draw one
/// instance of three vertices, end the render pass.
pub open spec fn spec_commands(v: ComparatorView, info: FrameCompareInfo) -> Seq<Cmd> {
    seq![
        Cmd::BeginRenderPass {
            render_pass: v.render_pass,
            framebuffer: v.framebuffers[info.output_target],
            width: v.output_extent.width,
            height: v.output_extent.height,
            clear_color: spec_clear_color(),
        },
        Cmd::BindPipeline { pipeline: v.pipeline },
        Cmd::BindBindingInstance { pipeline_layout: v.pipeline_layout },
        Cmd::PushConstants { pipeline_layout: v.pipeline_layout, block: spec_push_block(info) },
        Cmd::Draw { vertex_count: 3, instance_count: 1 },
        Cmd::EndRenderPass,
    ]
}

/// The ordered release sequence of a comparator's owned objects: the
/// sampler and every cached framebuffer first, then the pipeline, its
/// layout, the binding layout, and last the render-target descriptor —
/// dependents strictly before what they depend on.
pub open spec fn spec_teardown_plan(v: ComparatorView) -> Seq<GpuResource> {
    seq![GpuResource::Sampler(v.sampler)] + v.framebuffer_handles.map_values(
        |h: u64| GpuResource::Framebuffer(h),
    ) + seq![
        GpuResource::Pipeline(v.pipeline),
        GpuResource::PipelineLayout(v.pipeline_layout),
        GpuResource::DescriptorSetLayout(v.descriptor_set_layout),
        GpuResource::RenderPass(v.render_pass),
    ]
}

/// Everything a successful compare call hands the host: the binding plan to
/// allocate and populate, and the commands to replay, in order.
#[derive(Clone, Debug, PartialEq, Eq)]
pub struct CompareRecording {
    pub binding: BindingPlan,
    pub commands: Vec<Cmd>,
}

/// What a compare call decided.
#[derive(Clone, Debug, PartialEq, Eq)]
pub enum CompareOutcome {
    /// The output target has no cached framebuffer yet. The host must build
    /// one bound to `render_pass` and `attachment` at `width` by `height`,
    /// register it, and call compare again. Nothing was recorded and no
    /// pool capacity was consumed.
    MissingFramebuffer { render_pass: u64, attachment: u64, width: u32, height: u32 },
    /// The complete recording for the request.
    Recorded(CompareRecording),
}

impl FrameComparator {
    /// The framebuffer cache holds one entry per output target and the pool
    /// budget never exceeds its capacity.
    pub closed spec fn wf(&self) -> bool {
        self.framebuffers.wf() && self.pool.wf()
    }

    /// The number of image samplers one compare call allocates from the
    /// descriptor pool; the host must size the pool accordingly.
    pub fn image_sampler_count() -> (r: u32)
        ensures
            r == IMAGE_SAMPLER_COUNT,
    {
        IMAGE_SAMPLER_COUNT
    }

    /// The image-sampler slots the host's descriptor pool still holds, by
    /// the comparator's accounting.
    pub fn pool_remaining(&self) -> (r: u32)
        ensures
            r == self@.pool_remaining,
    {
        self.pool.remaining()
    }

    /// Assembles a comparator from the one-time resources the host created,
    /// with an empty framebuffer cache and the full pool budget.
    pub fn new(resources: ComparatorResources, output_extent: Extent2d, pool_capacity: u32) -> (r:
        Self)
        ensures
            r.wf(),
            r@ == (ComparatorView {
                render_pass: resources.render_pass,
                descriptor_set_layout: resources.descriptor_set_layout,
                pipeline_layout: resources.pipeline_layout,
                pipeline: resources.pipeline,
                sampler: resources.sampler,
                output_extent: output_extent,
                framebuffers: Map::<u64, u64>::empty(),
                framebuffer_handles: Seq::<u64>::empty(),
                pool_capacity: pool_capacity,
                pool_remaining: pool_capacity,
            }),
    {
        FrameComparator {
            render_pass: resources.render_pass,
            descriptor_set_layout: resources.descriptor_set_layout,
            pipeline_layout: resources.pipeline_layout,
            pipeline: resources.pipeline,
            sampler: resources.sampler,
            output_extent,
            framebuffers: FramebufferCache::new(),
            pool: DescriptorPoolState::new(pool_capacity),
        }
    }

    /// Returns the cached framebuffer for `output_target`, or caches and
    /// returns `fresh` — the framebuffer the host just built for that
    /// target — when no entry exists yet. The second result says whether
    /// the fresh handle was consumed.
    pub fn get_or_create_framebuffer(&mut self, output_target: u64, fresh: u64) -> (r: (u64, bool))
        requires
            old(self).wf(),
        ensures
            final(self).wf(),
            final(self)@.pool_remaining == old(self)@.pool_remaining,
            final(self)@ == (ComparatorView {
                framebuffers: final(self)@.framebuffers,
                framebuffer_handles: final(self)@.framebuffer_handles,
                ..old(self)@
            }),
            old(self)@.framebuffers.contains_key(output_target) ==> {
                &&& r == (old(self)@.framebuffers[output_target], false)
                &&& final(self)@ == old(self)@
            },
            !old(self)@.framebuffers.contains_key(output_target) ==> {
                &&& r == (fresh, true)
                &&& final(self)@.framebuffers == old(self)@.framebuffers.insert(
                    output_target,
                    fresh,
                )
                &&& final(self)@.framebuffer_handles == old(self)@.framebuffer_handles.push(fresh)
                &&& final(self)@.framebuffers.dom().len() == old(self)@.framebuffers.dom().len()
                    + 1
            },
    {
        self.framebuffers.get_or_create(output_target, fresh)
    }

    /// Removes the cache entry for `output_target`, returning the
    /// framebuffer handle the host must now destroy; a no-op returning
    /// `None` when no entry exists. Every other entry is left untouched.
    /// The host owes this call before destroying or reusing the output
    /// target underneath a cached entry.
    pub fn invalidate(&mut self, output_target: u64) -> (r: Option<u64>)
        requires
            old(self).wf(),
        ensures
            final(self).wf(),
            final(self)@ == (ComparatorView {
                framebuffers: old(self)@.framebuffers.remove(output_target),
                framebuffer_handles: final(self)@.framebuffer_handles,
                ..old(self)@
            }),
            match r {
                Some(fb) => old(self)@.framebuffers.contains_key(output_target) && fb == old(
                    self,
                )@.framebuffers[output_target],
                None => !old(self)@.framebuffers.contains_key(output_target) && final(self)@
                    == old(self)@,
            },
    {
        let r = self.framebuffers.invalidate(output_target);
        proof {
            if r is None {
                assert(final(self)@ =~= old(self)@);
            }
        }
        r
    }

    /// Plans one comparison draw. Exactly one of four things happens:
    /// - the divider position is invalid: `InvalidRequest`, nothing changes;
    /// - the output target has no cached framebuffer: the needed
    ///   framebuffer is described, nothing is recorded or consumed;
    /// - the pool budget is short of the two image-binding slots:
    ///   `PoolExhausted`, nothing changes;
    /// - otherwise: exactly two slots are consumed and the host receives
    ///   the binding plan and the full command sequence, a deterministic
    ///   function of the comparator's state and the request alone.
    pub fn compare(&mut self, info: &FrameCompareInfo) -> (r: Result<
        CompareOutcome,
        CompareError,
    >)
        requires
            old(self).wf(),
        ensures
            final(self).wf(),
            final(self)@ == (ComparatorView {
                pool_remaining: final(self)@.pool_remaining,
                ..old(self)@
            }),
            !spec_valid_request(*info) ==> r == Err::<CompareOutcome, CompareError>(
                CompareError::InvalidRequest,
            ) && final(self)@ == old(self)@,
            spec_valid_request(*info) && !old(self)@.framebuffers.contains_key(info.output_target)
                ==> r == Ok::<CompareOutcome, CompareError>(CompareOutcome::MissingFramebuffer {
                render_pass: old(self)@.render_pass,
                attachment: info.output_target,
                width: old(self)@.output_extent.width,
                height: old(self)@.output_extent.height,
            }) && final(self)@ == old(self)@,
            spec_valid_request(*info) && old(self)@.framebuffers.contains_key(info.output_target)
                && old(self)@.pool_remaining < IMAGE_SAMPLER_COUNT ==> r == Err::<
                CompareOutcome,
                CompareError,
            >(CompareError::PoolExhausted) && final(self)@ == old(self)@,
            spec_valid_request(*info) && old(self)@.framebuffers.contains_key(info.output_target)
                && old(self)@.pool_remaining >= IMAGE_SAMPLER_COUNT ==> {
                &&& r matches Ok(CompareOutcome::Recorded(rec)) && rec.binding
                    == spec_binding_plan(old(self)@, *info) && rec.commands@ == spec_commands(
                    old(self)@,
                    *info,
                )
                &&& final(self)@.pool_remaining == old(self)@.pool_remaining
                    - IMAGE_SAMPLER_COUNT
            },
    {
        if !(info.divider_position <= POSITION_ONE_BITS) {
            return Err(CompareError::InvalidRequest);
        }
        let fb_opt = self.framebuffers.get(info.output_target);
        match fb_opt {
            None => Ok(
                CompareOutcome::MissingFramebuffer {
                    render_pass: self.render_pass,
                    attachment: info.output_target,
                    width: self.output_extent.width,
                    height: self.output_extent.height,
                },
            ),
            Some(fb) => {
                if !self.pool.take_binding_slots() {
                    return Err(CompareError::PoolExhausted);
                }
                let block = PushConstantBuffer {
                    divider_pos: info.divider_position,
                    divider_width: info.divider_width_normalized,
                    color: info.divider_color,
                };
                let mut commands: Vec<Cmd> = Vec::new();
                commands.push(
                    Cmd::BeginRenderPass {
                        render_pass: self.render_pass,
                        framebuffer: fb,
                        width: self.output_extent.width,
                        height: self.output_extent.height,
                        clear_color: Color(0, 0, 0, 0x3f80_0000),
                    },
                );
                commands.push(Cmd::BindPipeline { pipeline: self.pipeline });
                commands.push(Cmd::BindBindingInstance { pipeline_layout: self.pipeline_layout });
                commands.push(
                    Cmd::PushConstants { pipeline_layout: self.pipeline_layout, block },
                );
                commands.push(Cmd::Draw { vertex_count: 3, instance_count: 1 });
                commands.push(Cmd::EndRenderPass);
                proof {
                    assert(commands@ =~= spec_commands(old(self)@, *info));
                }
                Ok(
                    CompareOutcome::Recorded(
                        CompareRecording {
                            binding: BindingPlan {
                                layout: self.descriptor_set_layout,
                                sampler: self.sampler,
                                slot0_image: info.left_image,
                                slot1_image: info.right_image,
                            },
                            commands,
                        },
                    ),
                )
            },
        }
    }

    /// Tears the comparator down, consuming it — nothing can be compared or
    /// invalidated afterwards — and returns the release plan: every owned
    /// object exactly once, in dependency order, for the host to destroy
    /// once no in-flight GPU work references them.
    pub fn destroy(self) -> (plan: Vec<GpuResource>)
        requires
            self.wf(),
        ensures
            plan@ == spec_teardown_plan(self@),
            plan@.len() == 5 + self@.framebuffers.dom().len(),
    {
        proof {
            self.framebuffers.lemma_handles_cover();
        }
        let ghost v = self@;
        let mut this = self;
        let mut plan: Vec<GpuResource> = Vec::new();
        plan.push(GpuResource::Sampler(this.sampler));
        let fbs = this.framebuffers.drain_handles();
        let n = fbs.len();
        let mut i: usize = 0;
        while i < n
            invariant
                n == fbs@.len(),
                0 <= i <= n,
                fbs@ == v.framebuffer_handles,
                plan@ == seq![GpuResource::Sampler(v.sampler)] + fbs@.subrange(
                    0,
                    i as int,
                ).map_values(|h: u64| GpuResource::Framebuffer(h)),
            decreases n - i,
        {
            let ghost before = fbs@.subrange(0, i as int);
            plan.push(GpuResource::Framebuffer(fbs[i]));
            proof {
                assert(fbs@.subrange(0, i as int + 1) =~= before.push(fbs@[i as int]));
                assert(fbs@.subrange(0, i as int + 1).map_values(
                    |h: u64| GpuResource::Framebuffer(h),
                ) =~= before.map_values(|h: u64| GpuResource::Framebuffer(h)).push(
                    GpuResource::Framebuffer(fbs@[i as int]),
                ));
            }
            i += 1;
        }
        plan.push(GpuResource::Pipeline(this.pipeline));
        plan.push(GpuResource::PipelineLayout(this.pipeline_layout));
        plan.push(GpuResource::DescriptorSetLayout(this.descriptor_set_layout));
        plan.push(GpuResource::RenderPass(this.render_pass));
        proof {
            assert(fbs@.subrange(0, n as int) =~= fbs@);
            assert(plan@ =~= spec_teardown_plan(v));
            assert(v.framebuffer_handles.len() == v.framebuffers.dom().len());
        }
        plan
    }
}

/// Idempotence of compare: from any state whose cache already holds the
/// request's output target, a repeated call with the identical request —
/// the first call changed nothing but the pool budget — plans the identical
/// binding and the identical command sequence, and caches nothing new.
pub proof fn lemma_compare_idempotent(v0: ComparatorView, v1: ComparatorView, info: FrameCompareInfo)
    requires
        spec_valid_request(info),
        v0.framebuffers.contains_key(info.output_target),
        v1 == (ComparatorView { pool_remaining: v1.pool_remaining, ..v0 }),
    ensures
        spec_commands(v1, info) == spec_commands(v0, info),
        spec_binding_plan(v1, info) == spec_binding_plan(v0, info),
{
    assert(spec_commands(v1, info) =~= spec_commands(v0, info));
}

/// The teardown plan releases each owned object exactly once, in dependency
/// order: the sampler at position 0, the cached framebuffers in insertion
/// order right after it, then the pipeline, the pipeline layout, the
/// binding layout, and the render-target descriptor last.
pub proof fn lemma_teardown_releases_once(v: ComparatorView)
    ensures
        spec_teardown_plan(v).len() == 5 + v.framebuffer_handles.len(),
        spec_teardown_plan(v)[0] == GpuResource::Sampler(v.sampler),
        forall|i: int|
            0 <= i < v.framebuffer_handles.len() ==> spec_teardown_plan(v)[1 + i]
                == GpuResource::Framebuffer(v.framebuffer_handles[i]),
        spec_teardown_plan(v)[1 + v.framebuffer_handles.len() as int] == GpuResource::Pipeline(v.pipeline),
        spec_teardown_plan(v)[2 + v.framebuffer_handles.len() as int] == GpuResource::PipelineLayout(
            v.pipeline_layout,
        ),
        spec_teardown_plan(v)[3 + v.framebuffer_handles.len() as int] == GpuResource::DescriptorSetLayout(
            v.descriptor_set_layout,
        ),
        spec_teardown_plan(v)[4 + v.framebuffer_handles.len() as int] == GpuResource::RenderPass(
            v.render_pass,
        ),
{
}

} // verus!
