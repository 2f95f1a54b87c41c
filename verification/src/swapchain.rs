//! Swapchain negotiation: surface format selection, extent selection, image
//! count, and the full set of fixed creation parameters (FIFO presentation,
//! exclusive sharing, colour-attachment usage).
//!
//! Formats, colour spaces and the other enumerated parameters are carried as
//! their raw Vulkan numeric codes, so a host layer can hand them to the driver
//! unchanged.

use vstd::prelude::*;

verus! {

/// Numeric code of the 8-bit BGRA sRGB format (VK_FORMAT_B8G8R8A8_SRGB).
pub const FORMAT_B8G8R8A8_SRGB: u32 = 50;
/// Numeric code of the non-linear sRGB colour space (VK_COLOR_SPACE_SRGB_NONLINEAR_KHR).
pub const COLOR_SPACE_SRGB_NONLINEAR: u32 = 0;
/// Numeric code of strict-FIFO presentation (VK_PRESENT_MODE_FIFO_KHR),
/// available on every conformant implementation.
pub const PRESENT_MODE_FIFO: u32 = 2;
/// Numeric code of exclusive sharing (VK_SHARING_MODE_EXCLUSIVE).
pub const SHARING_MODE_EXCLUSIVE: u32 = 0;
/// Numeric code of colour-attachment image usage (VK_IMAGE_USAGE_COLOR_ATTACHMENT_BIT).
pub const IMAGE_USAGE_COLOR_ATTACHMENT: u32 = 16;
/// Numeric code of opaque composite alpha (VK_COMPOSITE_ALPHA_OPAQUE_BIT_KHR).
pub const COMPOSITE_ALPHA_OPAQUE: u32 = 1;
/// Sentinel width meaning "the surface lets the application choose the extent".
pub const EXTENT_UNDEFINED: u32 = 0xffff_ffff;

/// A surface format: a pixel format paired with a colour space.
#[derive(Clone, Copy, Debug, PartialEq, Eq, Structural)]
pub struct SurfaceFormat {
    pub format: u32,
    pub color_space: u32,
}

/// A two-dimensional pixel extent.
#[derive(Clone, Copy, Debug, PartialEq, Eq, Structural)]
pub struct Extent2d {
    pub width: u32,
    pub height: u32,
}

/// The surface capabilities that swapchain negotiation reads.
#[derive(Clone, Copy, Debug, PartialEq, Eq, Structural)]
pub struct SurfaceCaps {
    pub min_image_count: u32,
    pub max_image_count: u32,
    pub current_extent: Extent2d,
    pub min_image_extent: Extent2d,
    pub max_image_extent: Extent2d,
    pub current_transform: u32,
}

/// The preferred pair: 8-bit BGRA with non-linear sRGB.
pub open spec fn is_preferred_format(f: SurfaceFormat) -> bool {
    f.format == FORMAT_B8G8R8A8_SRGB && f.color_space == COLOR_SPACE_SRGB_NONLINEAR
}

/// Whether some entry of the advertised list is the preferred pair.
pub open spec fn has_preferred_format(formats: Seq<SurfaceFormat>) -> bool {
    exists|i: int| 0 <= i < formats.len() && is_preferred_format(formats[i])
}

/// Selects the surface format: the preferred 8-bit BGRA/sRGB pair when the
/// surface advertises it, otherwise the first advertised entry.
pub fn choose_surface_format(formats: &Vec<SurfaceFormat>) -> (r: SurfaceFormat)
    requires
        formats@.len() > 0,
    ensures
        has_preferred_format(formats@) ==> is_preferred_format(r),
        !has_preferred_format(formats@) ==> r == formats@[0],
        exists|i: int| 0 <= i < formats@.len() && r == formats@[i],
{
    let n = formats.len();
    let mut j: usize = 0;
    while j < n
        invariant
            n == formats@.len(),
            j <= n,
            forall|k: int| 0 <= k < j ==> !is_preferred_format(formats@[k]),
        decreases n - j,
    {
        let f = formats[j];
        if f.format == FORMAT_B8G8R8A8_SRGB && f.color_space == COLOR_SPACE_SRGB_NONLINEAR {
            return f;
        }
        j += 1;
    }
    formats[0]
}

/// `v` clamped into `[lo, hi]`.
pub open spec fn clamped(v: u32, lo: u32, hi: u32) -> u32 {
    if v < lo {
        lo
    } else if v > hi {
        hi
    } else {
        v
    }
}

/// Clamps `v` into `[lo, hi]`.
pub fn clamp_u32(v: u32, lo: u32, hi: u32) -> (r: u32)
    requires
        lo <= hi,
    ensures
        r == clamped(v, lo, hi),
        lo <= r <= hi,
{
    if v < lo {
        lo
    } else if v > hi {
        hi
    } else {
        v
    }
}

/// Selects the swapchain extent: the surface-reported extent verbatim, unless
/// the surface reports the "application chooses" sentinel, in which case the
/// window size is clamped component-wise into the surface's extent bounds.
pub fn choose_extent(caps: &SurfaceCaps, window: Extent2d) -> (r: Extent2d)
    requires
        caps.current_extent.width == EXTENT_UNDEFINED ==> {
            &&& caps.min_image_extent.width <= caps.max_image_extent.width
            &&& caps.min_image_extent.height <= caps.max_image_extent.height
        },
    ensures
        caps.current_extent.width != EXTENT_UNDEFINED ==> r == caps.current_extent,
        caps.current_extent.width == EXTENT_UNDEFINED ==> r == (Extent2d {
            width: clamped(window.width, caps.min_image_extent.width, caps.max_image_extent.width),
            height: clamped(
                window.height,
                caps.min_image_extent.height,
                caps.max_image_extent.height,
            ),
        }),
{
    if caps.current_extent.width != EXTENT_UNDEFINED {
        caps.current_extent
    } else {
        Extent2d {
            width: clamp_u32(
                window.width,
                caps.min_image_extent.width,
                caps.max_image_extent.width,
            ),
            height: clamp_u32(
                window.height,
                caps.min_image_extent.height,
                caps.max_image_extent.height,
            ),
        }
    }
}

/// The negotiated image count: one more than the surface's minimum, clamped
/// down to the maximum when the surface declares a bounded (nonzero) maximum.
pub open spec fn chosen_image_count(caps: SurfaceCaps) -> int {
    if caps.max_image_count > 0 && caps.min_image_count + 1 > caps.max_image_count {
        caps.max_image_count as int
    } else {
        caps.min_image_count + 1
    }
}

/// Selects the number of swapchain images.
pub fn choose_image_count(caps: &SurfaceCaps) -> (r: u32)
    requires
        caps.min_image_count < u32::MAX,
    ensures
        r == chosen_image_count(*caps),
        caps.max_image_count == 0 ==> r == caps.min_image_count + 1,
{
    let mut count: u32 = caps.min_image_count + 1;
    if caps.max_image_count > 0 && count > caps.max_image_count {
        count = caps.max_image_count;
    }
    count
}

/// Image count invariant: with a bounded maximum that leaves room above the
/// minimum, the chosen count lies in `[min_image_count + 1, max_image_count]`;
/// with an unbounded (zero) maximum it is exactly `min_image_count + 1`.
pub proof fn lemma_image_count_bounds(caps: SurfaceCaps)
    requires
        caps.min_image_count < u32::MAX,
        caps.max_image_count > 0 ==> caps.min_image_count < caps.max_image_count,
    ensures
        caps.max_image_count > 0 ==> caps.min_image_count + 1 <= chosen_image_count(caps)
            <= caps.max_image_count,
        caps.max_image_count == 0 ==> chosen_image_count(caps) == caps.min_image_count + 1,
{
}

/// Everything the swapchain is created with: the negotiated format, extent and
/// image count, and the fixed parameters of this single-queue, vsync-paced
/// design.
#[derive(Clone, Copy, Debug, PartialEq, Eq, Structural)]
pub struct SwapchainPlan {
    pub format: SurfaceFormat,
    pub extent: Extent2d,
    pub image_count: u32,
    pub image_array_layers: u32,
    pub image_usage: u32,
    pub sharing_mode: u32,
    pub pre_transform: u32,
    pub composite_alpha: u32,
    pub present_mode: u32,
    pub clipped: bool,
}

/// Negotiates the full swapchain configuration from the surface capabilities,
/// the advertised format list, and the window's pixel size.
pub fn plan_swapchain(caps: &SurfaceCaps, formats: &Vec<SurfaceFormat>, window: Extent2d) -> (r:
    SwapchainPlan)
    requires
        formats@.len() > 0,
        caps.min_image_count < u32::MAX,
        caps.current_extent.width == EXTENT_UNDEFINED ==> {
            &&& caps.min_image_extent.width <= caps.max_image_extent.width
            &&& caps.min_image_extent.height <= caps.max_image_extent.height
        },
    ensures
        has_preferred_format(formats@) ==> is_preferred_format(r.format),
        !has_preferred_format(formats@) ==> r.format == formats@[0],
        exists|i: int| 0 <= i < formats@.len() && r.format == formats@[i],
        caps.current_extent.width != EXTENT_UNDEFINED ==> r.extent == caps.current_extent,
        caps.current_extent.width == EXTENT_UNDEFINED ==> r.extent == (Extent2d {
            width: clamped(window.width, caps.min_image_extent.width, caps.max_image_extent.width),
            height: clamped(
                window.height,
                caps.min_image_extent.height,
                caps.max_image_extent.height,
            ),
        }),
        r.image_count == chosen_image_count(*caps),
        r.image_array_layers == 1,
        r.image_usage == IMAGE_USAGE_COLOR_ATTACHMENT,
        r.sharing_mode == SHARING_MODE_EXCLUSIVE,
        r.pre_transform == caps.current_transform,
        r.composite_alpha == COMPOSITE_ALPHA_OPAQUE,
        r.present_mode == PRESENT_MODE_FIFO,
        r.clipped,
{
    let format = choose_surface_format(formats);
    let extent = choose_extent(caps, window);
    let image_count = choose_image_count(caps);
    SwapchainPlan {
        format,
        extent,
        image_count,
        image_array_layers: 1,
        image_usage: IMAGE_USAGE_COLOR_ATTACHMENT,
        sharing_mode: SHARING_MODE_EXCLUSIVE,
        pre_transform: caps.current_transform,
        composite_alpha: COMPOSITE_ALPHA_OPAQUE,
        present_mode: PRESENT_MODE_FIFO,
        clipped: true,
    }
}

} // verus!
