//! Teardown ordering: every GPU object is created once during construction
//! and destroyed exactly once during teardown, in the exact reverse of
//! creation order, after the device has been idled. Command buffers are owned
//! by the command pool and are freed implicitly when the pool is destroyed,
//! so they carry no destruction step of their own.

use vstd::prelude::*;

verus! {

/// The kinds of GPU object the renderer creates and destroys.
#[derive(Clone, Copy, Debug, PartialEq, Eq, Structural)]
pub enum GpuObjectKind {
    Instance,
    DebugMessenger,
    Surface,
    Device,
    Swapchain,
    ImageView,
    RenderPass,
    CommandPool,
    ImageAvailableSemaphore,
    RenderFinishedSemaphore,
    InFlightFence,
}

/// One step of the teardown routine.
#[derive(Clone, Copy, Debug, PartialEq, Eq, Structural)]
pub enum TeardownStep {
    /// Block until all submitted GPU work completes. Mandatory before any
    /// object is destroyed.
    WaitDeviceIdle,
    /// Destroy one object.
    Destroy(GpuObjectKind),
}

/// The order in which the renderer creates its objects: instance, optional
/// debug messenger, surface, logical device, swapchain, one image view per
/// swapchain image, render pass, command pool, and the three synchronisation
/// primitives.
pub open spec fn renderer_creation_seq(with_debug: bool, image_count: int) -> Seq<GpuObjectKind> {
    seq![GpuObjectKind::Instance] + (if with_debug {
        seq![GpuObjectKind::DebugMessenger]
    } else {
        Seq::<GpuObjectKind>::empty()
    }) + seq![GpuObjectKind::Surface, GpuObjectKind::Device, GpuObjectKind::Swapchain]
        + Seq::new(image_count as nat, |i: int| GpuObjectKind::ImageView) + seq![
        GpuObjectKind::RenderPass,
        GpuObjectKind::CommandPool,
        GpuObjectKind::ImageAvailableSemaphore,
        GpuObjectKind::RenderFinishedSemaphore,
        GpuObjectKind::InFlightFence,
    ]
}

/// Records the renderer's creation order, for a build with or without the
/// debug messenger and with `image_count` swapchain images.
pub fn renderer_creation_order(with_debug: bool, image_count: u32) -> (r: Vec<GpuObjectKind>)
    ensures
        r@ == renderer_creation_seq(with_debug, image_count as int),
{
    let mut log: Vec<GpuObjectKind> = Vec::new();
    log.push(GpuObjectKind::Instance);
    if with_debug {
        log.push(GpuObjectKind::DebugMessenger);
    }
    log.push(GpuObjectKind::Surface);
    log.push(GpuObjectKind::Device);
    log.push(GpuObjectKind::Swapchain);
    let ghost prefix = log@;
    let mut i: u32 = 0;
    while i < image_count
        invariant
            i <= image_count,
            log@ == prefix + Seq::new(i as nat, |j: int| GpuObjectKind::ImageView),
        decreases image_count - i,
    {
        log.push(GpuObjectKind::ImageView);
        proof {
            assert(log@ =~= prefix + Seq::new((i + 1) as nat, |j: int| GpuObjectKind::ImageView));
        }
        i += 1;
    }
    log.push(GpuObjectKind::RenderPass);
    log.push(GpuObjectKind::CommandPool);
    log.push(GpuObjectKind::ImageAvailableSemaphore);
    log.push(GpuObjectKind::RenderFinishedSemaphore);
    log.push(GpuObjectKind::InFlightFence);
    proof {
        assert(log@ =~= renderer_creation_seq(with_debug, image_count as int));
    }
    log
}

/// Builds the teardown routine for a recorded creation order: idle the device
/// first, then destroy every created object, walking the creation order
/// strictly backwards.
pub fn teardown_plan(created: &Vec<GpuObjectKind>) -> (r: Vec<TeardownStep>)
    ensures
        r@.len() == created@.len() + 1,
        r@[0] == TeardownStep::WaitDeviceIdle,
        forall|i: int|
            1 <= i <= created@.len() ==> #[trigger] r@[i] == TeardownStep::Destroy(
                created@[created@.len() - i],
            ),
{
    let mut steps: Vec<TeardownStep> = Vec::new();
    steps.push(TeardownStep::WaitDeviceIdle);
    let n = created.len();
    let mut i: usize = 0;
    while i < n
        invariant
            n == created@.len(),
            i <= n,
            steps@.len() == i + 1,
            steps@[0] == TeardownStep::WaitDeviceIdle,
            forall|j: int|
                1 <= j <= i ==> #[trigger] steps@[j] == TeardownStep::Destroy(created@[n - j]),
        decreases n - i,
    {
        steps.push(TeardownStep::Destroy(created[n - 1 - i]));
        i += 1;
    }
    steps
}

/// Teardown exactly reverses creation: after the initial device idle, the
/// destruction steps of any plan meeting the teardown contract are precisely
/// the reversal of the creation order, object for object.
pub proof fn lemma_teardown_reverses_creation(
    created: Seq<GpuObjectKind>,
    plan: Seq<TeardownStep>,
)
    requires
        plan.len() == created.len() + 1,
        plan[0] == TeardownStep::WaitDeviceIdle,
        forall|i: int|
            1 <= i <= created.len() ==> #[trigger] plan[i] == TeardownStep::Destroy(
                created[created.len() - i],
            ),
    ensures
        plan.subrange(1, plan.len() as int) =~= created.reverse().map_values(
            (|k: GpuObjectKind| TeardownStep::Destroy(k)),
        ),
{
}

} // verus!
