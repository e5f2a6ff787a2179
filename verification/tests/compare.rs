//! The comparator façade: request validation, framebuffer resolution, pool
//! accounting, command recording, and teardown.

use frame_compare::commands::Cmd;
use frame_compare::descriptors::BindingPlan;
use frame_compare::push_constants::Color;
use frame_compare::{
    CompareError, CompareOutcome, ComparatorResources, Extent2d, FrameCompareInfo,
    FrameComparator, GpuResource,
};

fn resources() -> ComparatorResources {
    ComparatorResources {
        render_pass: 11,
        descriptor_set_layout: 12,
        pipeline_layout: 13,
        pipeline: 14,
        sampler: 15,
    }
}

fn request() -> FrameCompareInfo {
    FrameCompareInfo {
        command_buffer: 1,
        output_target: 7,
        left_image: 21,
        right_image: 22,
        divider_position: 0.5f32.to_bits(),
        divider_width: 4,
        divider_width_normalized: (4.0f32 / 100.0f32).to_bits(),
        divider_color: Color(0, 0, 0, 1.0f32.to_bits()),
    }
}

#[test]
fn missing_framebuffer_is_described() {
    let mut c = FrameComparator::new(resources(), Extent2d { width: 100, height: 50 }, 4);
    let r = c.compare(&request());
    assert_eq!(
        r,
        Ok(CompareOutcome::MissingFramebuffer {
            render_pass: 11,
            attachment: 7,
            width: 100,
            height: 50,
        })
    );
    // Nothing was consumed.
    assert_eq!(c.pool_remaining(), 4);
}

#[test]
fn recorded_commands_are_exact() {
    let mut c = FrameComparator::new(resources(), Extent2d { width: 100, height: 50 }, 4);
    assert_eq!(c.get_or_create_framebuffer(7, 99), (99, true));
    let info = request();
    let r = c.compare(&info);
    let rec = match r {
        Ok(CompareOutcome::Recorded(rec)) => rec,
        other => panic!("expected a recording, got {other:?}"),
    };
    assert_eq!(
        rec.binding,
        BindingPlan { layout: 12, sampler: 15, slot0_image: 21, slot1_image: 22 }
    );
    assert_eq!(rec.commands.len(), 6);
    assert_eq!(
        rec.commands[0],
        Cmd::BeginRenderPass {
            render_pass: 11,
            framebuffer: 99,
            width: 100,
            height: 50,
            clear_color: Color(0, 0, 0, 1.0f32.to_bits()),
        }
    );
    assert_eq!(rec.commands[1], Cmd::BindPipeline { pipeline: 14 });
    assert_eq!(rec.commands[2], Cmd::BindBindingInstance { pipeline_layout: 13 });
    match rec.commands[3] {
        Cmd::PushConstants { pipeline_layout, block } => {
            assert_eq!(pipeline_layout, 13);
            assert_eq!(block.divider_pos, info.divider_position);
            assert_eq!(block.divider_width, info.divider_width_normalized);
            assert_eq!(block.color, info.divider_color);
        }
        other => panic!("expected push constants, got {other:?}"),
    }
    assert_eq!(rec.commands[4], Cmd::Draw { vertex_count: 3, instance_count: 1 });
    assert_eq!(rec.commands[5], Cmd::EndRenderPass);
}

#[test]
fn compare_is_idempotent() {
    // Two calls with the identical request produce identical recordings and
    // reuse the cached framebuffer: no new entry on the second call.
    let mut c = FrameComparator::new(resources(), Extent2d { width: 100, height: 50 }, 8);
    c.get_or_create_framebuffer(7, 99);
    let info = request();
    let r1 = c.compare(&info);
    let r2 = c.compare(&info);
    assert_eq!(r1, r2);
    assert_eq!(c.get_or_create_framebuffer(7, 1000), (99, false));
}

#[test]
fn each_compare_consumes_two_slots() {
    let mut c = FrameComparator::new(resources(), Extent2d { width: 100, height: 50 }, 5);
    c.get_or_create_framebuffer(7, 99);
    assert_eq!(c.pool_remaining(), 5);
    assert!(matches!(c.compare(&request()), Ok(CompareOutcome::Recorded(_))));
    assert_eq!(c.pool_remaining(), 3);
    assert!(matches!(c.compare(&request()), Ok(CompareOutcome::Recorded(_))));
    assert_eq!(c.pool_remaining(), 1);
    // One slot short of the two the call needs: the call fails and records
    // nothing, and the budget is untouched.
    assert_eq!(c.compare(&request()), Err(CompareError::PoolExhausted));
    assert_eq!(c.pool_remaining(), 1);
}

#[test]
fn image_sampler_count_matches_consumption() {
    assert_eq!(FrameComparator::image_sampler_count(), 2);
}

#[test]
fn invalid_position_is_rejected() {
    let mut c = FrameComparator::new(resources(), Extent2d { width: 100, height: 50 }, 4);
    c.get_or_create_framebuffer(7, 99);
    for bad in [1.5f32.to_bits(), (-0.25f32).to_bits(), f32::NAN.to_bits(), f32::INFINITY.to_bits()]
    {
        let info = FrameCompareInfo { divider_position: bad, ..request() };
        assert_eq!(c.compare(&info), Err(CompareError::InvalidRequest));
        assert_eq!(c.pool_remaining(), 4);
    }
}

#[test]
fn invalidate_then_recreate() {
    let mut c = FrameComparator::new(resources(), Extent2d { width: 100, height: 50 }, 8);
    c.get_or_create_framebuffer(7, 99);
    c.get_or_create_framebuffer(8, 88);
    // Invalidation hands back exactly the framebuffer of that target.
    assert_eq!(c.invalidate(7), Some(99));
    assert_eq!(c.invalidate(7), None);
    // The other entry is untouched.
    assert_eq!(c.get_or_create_framebuffer(8, 1000), (88, false));
    // A compare against the invalidated target asks for a fresh framebuffer.
    assert!(matches!(
        c.compare(&request()),
        Ok(CompareOutcome::MissingFramebuffer { attachment: 7, .. })
    ));
}

#[test]
fn teardown_releases_everything_in_order() {
    let mut c = FrameComparator::new(resources(), Extent2d { width: 100, height: 50 }, 4);
    c.get_or_create_framebuffer(7, 99);
    c.get_or_create_framebuffer(8, 88);
    // Consuming the comparator means no compare or invalidate can follow;
    // the plan lists each owned object exactly once, dependents first.
    let plan = c.destroy();
    assert_eq!(
        plan,
        vec![
            GpuResource::Sampler(15),
            GpuResource::Framebuffer(99),
            GpuResource::Framebuffer(88),
            GpuResource::Pipeline(14),
            GpuResource::PipelineLayout(13),
            GpuResource::DescriptorSetLayout(12),
            GpuResource::RenderPass(11),
        ]
    );
}

#[test]
fn builder_defaults_and_setters() {
    let info = FrameCompareInfo::builder().build();
    assert_eq!(info.command_buffer, 0);
    assert_eq!(info.divider_position, 0.5f32.to_bits());
    assert_eq!(info.divider_width, 4);
    assert_eq!(info.divider_width_normalized, 0);
    assert_eq!(info.divider_color, Color(0, 0, 0, 0));
    let info = FrameCompareInfo::builder()
        .command_buffer(1)
        .output_target(7)
        .left_image(21)
        .right_image(22)
        .divider_position(0.25f32.to_bits())
        .divider_width(8)
        .divider_width_normalized((8.0f32 / 100.0f32).to_bits())
        .divider_color(Color(1, 2, 3, 4))
        .build();
    assert_eq!(info.output_target, 7);
    assert_eq!(info.left_image, 21);
    assert_eq!(info.right_image, 22);
    assert_eq!(info.divider_position, 0.25f32.to_bits());
    assert_eq!(info.divider_width, 8);
    assert_eq!(info.divider_color, Color(1, 2, 3, 4));
}
