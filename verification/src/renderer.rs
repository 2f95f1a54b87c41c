//! The construction plan of the whole presentation pipeline. Once a physical
//! device and queue family are selected, everything the bootstrap creates is
//! determined by the surface capabilities, the advertised formats and the
//! window size; this module computes all of it in one step, so a host layer
//! only performs the planned creations in order.

use vstd::prelude::*;
use crate::record::RecordStep;
use crate::record::record_plan;
use crate::record::record_seq;
use crate::renderpass::ImageViewDesc;
use crate::renderpass::RenderPassDesc;
use crate::renderpass::clear_present_pass;
use crate::renderpass::image_view_plan;
use crate::renderpass::view_for_image;
use crate::swapchain::Extent2d;
use crate::swapchain::SurfaceCaps;
use crate::swapchain::SurfaceFormat;
use crate::swapchain::SwapchainPlan;
use crate::swapchain::EXTENT_UNDEFINED;
use crate::swapchain::chosen_image_count;
use crate::swapchain::has_preferred_format;
use crate::swapchain::is_preferred_format;
use crate::swapchain::plan_swapchain;
use crate::teardown::GpuObjectKind;
use crate::teardown::renderer_creation_order;
use crate::teardown::renderer_creation_seq;
use crate::frame::FrameMachine;
use crate::frame::FramePhase;

verus! {

/// Everything the bootstrap creates after device selection: the negotiated
/// swapchain, one image view per swapchain image, the background-clear render
/// pass, the command-recording schedule, the creation log that teardown will
/// reverse, and the frame synchroniser, idle and ready for the first frame.
pub struct RendererPlan {
    pub swapchain: SwapchainPlan,
    pub views: Vec<ImageViewDesc>,
    pub pass: RenderPassDesc,
    pub record: Vec<RecordStep>,
    pub creation: Vec<GpuObjectKind>,
    pub sync: FrameMachine,
}

impl RendererPlan {
    /// The plan's parts agree on the image count: one view and one recorded
    /// command buffer per swapchain image, one logged image view creation,
    /// and a synchroniser sized to the same count.
    pub open spec fn consistent(self) -> bool {
        &&& self.views@.len() == self.swapchain.image_count
        &&& self.record@ == record_seq(self.swapchain.image_count as int)
        &&& self.sync.image_count == self.swapchain.image_count
        &&& self.sync.phase == FramePhase::Idle
    }
}

/// Plans the whole pipeline for the selected device: negotiates the
/// swapchain, lays out the views, the render pass and the recording
/// schedule, logs the creation order, and readies the frame synchroniser.
pub fn plan_renderer(
    caps: &SurfaceCaps,
    formats: &Vec<SurfaceFormat>,
    window: Extent2d,
    with_debug: bool,
) -> (r: RendererPlan)
    requires
        formats@.len() > 0,
        caps.min_image_count < u32::MAX,
        caps.current_extent.width == EXTENT_UNDEFINED ==> {
            &&& caps.min_image_extent.width <= caps.max_image_extent.width
            &&& caps.min_image_extent.height <= caps.max_image_extent.height
        },
    ensures
        r.consistent(),
        has_preferred_format(formats@) ==> is_preferred_format(r.swapchain.format),
        !has_preferred_format(formats@) ==> r.swapchain.format == formats@[0],
        caps.current_extent.width != EXTENT_UNDEFINED ==> r.swapchain.extent
            == caps.current_extent,
        r.swapchain.image_count == chosen_image_count(*caps),
        forall|i: int|
            0 <= i < r.views@.len() ==> #[trigger] r.views@[i] == view_for_image(
                i as u32,
                r.swapchain.format.format,
            ),
        r.pass.attachment.format == r.swapchain.format.format,
        r.creation@ == renderer_creation_seq(with_debug, r.swapchain.image_count as int),
{
    let swapchain = plan_swapchain(caps, formats, window);
    let views = image_view_plan(swapchain.image_count, swapchain.format.format);
    let pass = clear_present_pass(swapchain.format.format);
    let record = record_plan(swapchain.image_count);
    let creation = renderer_creation_order(with_debug, swapchain.image_count);
    let sync = FrameMachine::new(swapchain.image_count);
    RendererPlan { swapchain, views, pass, record, creation, sync }
}

} // verus!
