use rust_vrender::record::{record_plan, RecordStep};
use rust_vrender::renderer::plan_renderer;
use rust_vrender::renderpass::{
    clear_present_pass, image_view_plan, ASPECT_COLOR, BIND_POINT_GRAPHICS,
    LAYOUT_COLOR_ATTACHMENT_OPTIMAL, LAYOUT_PRESENT_SRC, LAYOUT_UNDEFINED, LOAD_OP_CLEAR,
    LOAD_OP_DONT_CARE, SAMPLE_COUNT_1, STORE_OP_DONT_CARE, STORE_OP_STORE, SWIZZLE_IDENTITY,
    VIEW_TYPE_2D,
};
use rust_vrender::swapchain::{Extent2d, SurfaceCaps, SurfaceFormat};

#[test]
fn render_pass_clears_then_presents() {
    let pass = clear_present_pass(50);
    assert_eq!(pass.attachment.format, 50);
    assert_eq!(pass.attachment.samples, SAMPLE_COUNT_1);
    assert_eq!(pass.attachment.load_op, LOAD_OP_CLEAR);
    assert_eq!(pass.attachment.store_op, STORE_OP_STORE);
    assert_eq!(pass.attachment.stencil_load_op, LOAD_OP_DONT_CARE);
    assert_eq!(pass.attachment.stencil_store_op, STORE_OP_DONT_CARE);
    assert_eq!(pass.attachment.initial_layout, LAYOUT_UNDEFINED);
    assert_eq!(pass.attachment.final_layout, LAYOUT_PRESENT_SRC);
    assert_eq!(pass.subpass.bind_point, BIND_POINT_GRAPHICS);
    assert_eq!(pass.subpass.color_attachment, 0);
    assert_eq!(
        pass.subpass.color_attachment_layout,
        LAYOUT_COLOR_ATTACHMENT_OPTIMAL
    );
}

#[test]
fn one_view_per_image_with_identity_mapping() {
    let views = image_view_plan(2, 50);
    assert_eq!(views.len(), 2);
    for (i, view) in views.iter().enumerate() {
        assert_eq!(view.image_index, i as u32);
        assert_eq!(view.view_type, VIEW_TYPE_2D);
        assert_eq!(view.format, 50);
        assert_eq!(view.swizzle_r, SWIZZLE_IDENTITY);
        assert_eq!(view.swizzle_g, SWIZZLE_IDENTITY);
        assert_eq!(view.swizzle_b, SWIZZLE_IDENTITY);
        assert_eq!(view.swizzle_a, SWIZZLE_IDENTITY);
        assert_eq!(view.aspect_mask, ASPECT_COLOR);
        assert_eq!(view.base_mip_level, 0);
        assert_eq!(view.level_count, 1);
        assert_eq!(view.base_array_layer, 0);
        assert_eq!(view.layer_count, 1);
    }
}

#[test]
fn recording_schedule_is_six_steps_per_buffer_in_order() {
    let steps = record_plan(2);
    assert_eq!(
        steps,
        vec![
            RecordStep::BeginBuffer(0),
            RecordStep::CreateFramebuffer(0),
            RecordStep::BeginPass(0),
            RecordStep::EndPass(0),
            RecordStep::EndBuffer(0),
            RecordStep::DestroyFramebuffer(0),
            RecordStep::BeginBuffer(1),
            RecordStep::CreateFramebuffer(1),
            RecordStep::BeginPass(1),
            RecordStep::EndPass(1),
            RecordStep::EndBuffer(1),
            RecordStep::DestroyFramebuffer(1),
        ]
    );
}

#[test]
fn framebuffers_are_destroyed_right_after_their_buffer_is_recorded() {
    let steps = record_plan(4);
    for (pos, step) in steps.iter().enumerate() {
        if let RecordStep::EndBuffer(i) = step {
            assert_eq!(steps[pos + 1], RecordStep::DestroyFramebuffer(*i));
        }
    }
}

#[test]
fn renderer_plan_parts_agree_on_image_count() {
    let caps = SurfaceCaps {
        min_image_count: 2,
        max_image_count: 4,
        current_extent: Extent2d {
            width: 640,
            height: 480,
        },
        min_image_extent: Extent2d { width: 1, height: 1 },
        max_image_extent: Extent2d {
            width: 4096,
            height: 4096,
        },
        current_transform: 0,
    };
    let formats = vec![SurfaceFormat {
        format: 50,
        color_space: 0,
    }];
    let plan = plan_renderer(
        &caps,
        &formats,
        Extent2d {
            width: 640,
            height: 480,
        },
        false,
    );
    assert_eq!(plan.swapchain.image_count, 3);
    assert_eq!(plan.views.len(), 3);
    assert_eq!(plan.record.len(), 18);
    assert_eq!(plan.sync.image_count, 3);
    assert_eq!(plan.pass.attachment.format, 50);
    assert_eq!(plan.creation.len(), 3 + 9);
}
