//! The single-pass render pass definition (clear on load, store on store,
//! present-ready on exit) and the 1:1 image view plan over the swapchain
//! images. Enumerated parameters are carried as their raw Vulkan numeric
//! codes, as in the swapchain plan.

use vstd::prelude::*;

verus! {

/// Numeric code of clear-on-load (VK_ATTACHMENT_LOAD_OP_CLEAR).
pub const LOAD_OP_CLEAR: u32 = 1;
/// Numeric code of ignore-on-load (VK_ATTACHMENT_LOAD_OP_DONT_CARE).
pub const LOAD_OP_DONT_CARE: u32 = 2;
/// Numeric code of store-on-store (VK_ATTACHMENT_STORE_OP_STORE).
pub const STORE_OP_STORE: u32 = 0;
/// Numeric code of ignore-on-store (VK_ATTACHMENT_STORE_OP_DONT_CARE).
pub const STORE_OP_DONT_CARE: u32 = 1;
/// Numeric code of the undefined image layout (VK_IMAGE_LAYOUT_UNDEFINED).
pub const LAYOUT_UNDEFINED: u32 = 0;
/// Numeric code of the colour-attachment layout (VK_IMAGE_LAYOUT_COLOR_ATTACHMENT_OPTIMAL).
pub const LAYOUT_COLOR_ATTACHMENT_OPTIMAL: u32 = 2;
/// Numeric code of the ready-to-present layout (VK_IMAGE_LAYOUT_PRESENT_SRC_KHR).
pub const LAYOUT_PRESENT_SRC: u32 = 1000001002;
/// Numeric code of single-sample attachments (VK_SAMPLE_COUNT_1_BIT).
pub const SAMPLE_COUNT_1: u32 = 1;
/// Numeric code of the graphics bind point (VK_PIPELINE_BIND_POINT_GRAPHICS).
pub const BIND_POINT_GRAPHICS: u32 = 0;
/// Numeric code of a two-dimensional image view (VK_IMAGE_VIEW_TYPE_2D).
pub const VIEW_TYPE_2D: u32 = 1;
/// Numeric code of the identity component swizzle (VK_COMPONENT_SWIZZLE_IDENTITY).
pub const SWIZZLE_IDENTITY: u32 = 0;
/// Numeric code of the colour aspect (VK_IMAGE_ASPECT_COLOR_BIT).
pub const ASPECT_COLOR: u32 = 1;

/// One colour attachment of the render pass.
#[derive(Clone, Copy, Debug, PartialEq, Eq, Structural)]
pub struct AttachmentDesc {
    pub format: u32,
    pub samples: u32,
    pub load_op: u32,
    pub store_op: u32,
    pub stencil_load_op: u32,
    pub stencil_store_op: u32,
    pub initial_layout: u32,
    pub final_layout: u32,
}

/// The single subpass: graphics bind point, one colour attachment reference.
#[derive(Clone, Copy, Debug, PartialEq, Eq, Structural)]
pub struct SubpassDesc {
    pub bind_point: u32,
    pub color_attachment: u32,
    pub color_attachment_layout: u32,
}

/// The whole render pass definition: one attachment, one subpass.
#[derive(Clone, Copy, Debug, PartialEq, Eq, Structural)]
pub struct RenderPassDesc {
    pub attachment: AttachmentDesc,
    pub subpass: SubpassDesc,
}

/// Defines the background-clear render pass for images of the given format:
/// single-sample, clear on load, store on store, stencil ignored, entered
/// from the undefined layout and left ready to present; one graphics subpass
/// whose sole target is that attachment in colour-attachment layout.
pub fn clear_present_pass(format: u32) -> (r: RenderPassDesc)
    ensures
        r.attachment.format == format,
        r.attachment.samples == SAMPLE_COUNT_1,
        r.attachment.load_op == LOAD_OP_CLEAR,
        r.attachment.store_op == STORE_OP_STORE,
        r.attachment.stencil_load_op == LOAD_OP_DONT_CARE,
        r.attachment.stencil_store_op == STORE_OP_DONT_CARE,
        r.attachment.initial_layout == LAYOUT_UNDEFINED,
        r.attachment.final_layout == LAYOUT_PRESENT_SRC,
        r.subpass.bind_point == BIND_POINT_GRAPHICS,
        r.subpass.color_attachment == 0,
        r.subpass.color_attachment_layout == LAYOUT_COLOR_ATTACHMENT_OPTIMAL,
{
    RenderPassDesc {
        attachment: AttachmentDesc {
            format,
            samples: SAMPLE_COUNT_1,
            load_op: LOAD_OP_CLEAR,
            store_op: STORE_OP_STORE,
            stencil_load_op: LOAD_OP_DONT_CARE,
            stencil_store_op: STORE_OP_DONT_CARE,
            initial_layout: LAYOUT_UNDEFINED,
            final_layout: LAYOUT_PRESENT_SRC,
        },
        subpass: SubpassDesc {
            bind_point: BIND_POINT_GRAPHICS,
            color_attachment: 0,
            color_attachment_layout: LAYOUT_COLOR_ATTACHMENT_OPTIMAL,
        },
    }
}

/// How one image view is created over swapchain image `image_index`.
#[derive(Clone, Copy, Debug, PartialEq, Eq, Structural)]
pub struct ImageViewDesc {
    pub image_index: u32,
    pub view_type: u32,
    pub format: u32,
    pub swizzle_r: u32,
    pub swizzle_g: u32,
    pub swizzle_b: u32,
    pub swizzle_a: u32,
    pub aspect_mask: u32,
    pub base_mip_level: u32,
    pub level_count: u32,
    pub base_array_layer: u32,
    pub layer_count: u32,
}

/// The view created over image `i`: two-dimensional, the swapchain's format,
/// identity channel mapping, and a single colour-plane, single-mip,
/// single-layer subresource range.
pub open spec fn view_for_image(i: u32, format: u32) -> ImageViewDesc {
    ImageViewDesc {
        image_index: i,
        view_type: VIEW_TYPE_2D,
        format,
        swizzle_r: SWIZZLE_IDENTITY,
        swizzle_g: SWIZZLE_IDENTITY,
        swizzle_b: SWIZZLE_IDENTITY,
        swizzle_a: SWIZZLE_IDENTITY,
        aspect_mask: ASPECT_COLOR,
        base_mip_level: 0,
        level_count: 1,
        base_array_layer: 0,
        layer_count: 1,
    }
}

/// Plans the image views: one view per swapchain image, in image order.
pub fn image_view_plan(image_count: u32, format: u32) -> (r: Vec<ImageViewDesc>)
    ensures
        r@.len() == image_count,
        forall|i: int| 0 <= i < image_count ==> #[trigger] r@[i] == view_for_image(i as u32, format),
{
    let mut views: Vec<ImageViewDesc> = Vec::new();
    let mut i: u32 = 0;
    while i < image_count
        invariant
            i <= image_count,
            views@.len() == i,
            forall|j: int| 0 <= j < i ==> #[trigger] views@[j] == view_for_image(j as u32, format),
        decreases image_count - i,
    {
        views.push(
            ImageViewDesc {
                image_index: i,
                view_type: VIEW_TYPE_2D,
                format,
                swizzle_r: SWIZZLE_IDENTITY,
                swizzle_g: SWIZZLE_IDENTITY,
                swizzle_b: SWIZZLE_IDENTITY,
                swizzle_a: SWIZZLE_IDENTITY,
                aspect_mask: ASPECT_COLOR,
                base_mip_level: 0,
                level_count: 1,
                base_array_layer: 0,
                layer_count: 1,
            },
        );
        i += 1;
    }
    views
}

} // verus!
