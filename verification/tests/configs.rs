//! The one-time resource configurations: render target, sampler, binding
//! layout, pipeline.

use frame_compare::pipeline::{binding_layout_slots, pipeline_config};
use frame_compare::render_pass::render_target_config;
use frame_compare::sampler::sampler_config;
use frame_compare::Extent2d;

#[test]
fn render_target_uses_caller_layout() {
    let c = render_target_config(44, Some(1001), 9999);
    assert_eq!(c.format, 44);
    assert!(c.clear_on_load);
    assert!(c.store_on_end);
    assert_eq!(c.color_attachment_count, 1);
    assert_eq!(c.final_layout, 1001);
}

#[test]
fn render_target_defaults_to_presentable_layout() {
    let c = render_target_config(44, None, 9999);
    assert_eq!(c.final_layout, 9999);
}

#[test]
fn sampler_is_linear_clamp_to_edge() {
    let c = sampler_config();
    assert!(c.clamp_to_edge);
    assert!(c.linear_filter);
    assert!(!c.anisotropy_enabled);
    assert!(!c.compare_enabled);
    assert!(!c.unnormalized_coordinates);
}

#[test]
fn binding_layout_has_two_fragment_slots() {
    let slots = binding_layout_slots();
    assert_eq!(slots.len(), 2);
    for (i, slot) in slots.iter().enumerate() {
        assert_eq!(slot.binding, i as u32);
        assert_eq!(slot.descriptor_count, 1);
        assert!(slot.fragment_stage_only);
    }
}

#[test]
fn pipeline_state_is_fixed() {
    let c = pipeline_config(Extent2d { width: 640, height: 480 });
    assert_eq!(c.vertex_binding_count, 0);
    assert_eq!(c.vertex_attribute_count, 0);
    assert!(c.triangle_list);
    assert_eq!((c.viewport_width, c.viewport_height), (640, 480));
    assert_eq!((c.scissor_width, c.scissor_height), (640, 480));
    assert!(!c.depth_test_enabled);
    assert!(!c.stencil_test_enabled);
    assert!(c.alpha_blend_enabled);
    assert_eq!(c.push_constant_bytes, 24);
    assert!(c.push_constant_bytes <= 128);
    assert_eq!(c.color_attachment_count, 1);
}
