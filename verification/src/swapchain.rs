//! Presentation-chain planning: choosing a surface format, present mode,
//! extent, image count and sharing mode from a capability snapshot, and
//! the fixed per-image view policy.

use vstd::prelude::*;

use crate::queue::QueueFamilyIndices;
use crate::surface::{Extent2D, SurfaceCapabilities, SurfaceFormat, SwapchainSupport};

verus! {

/// Raw code of the 8-bit-per-channel BGRA sRGB format
/// (`VK_FORMAT_B8G8R8A8_SRGB`).
pub const FORMAT_B8G8R8A8_SRGB: i32 = 50;

/// Raw code of the standard non-linear sRGB color space
/// (`VK_COLOR_SPACE_SRGB_NONLINEAR_KHR`).
pub const COLOR_SPACE_SRGB_NONLINEAR: i32 = 0;

/// Raw code of the low-latency triple-buffering-style present mode
/// (`VK_PRESENT_MODE_MAILBOX_KHR`).
pub const PRESENT_MODE_MAILBOX: i32 = 1;

/// Raw code of the universally supported vsync'd present mode
/// (`VK_PRESENT_MODE_FIFO_KHR`).
pub const PRESENT_MODE_FIFO: i32 = 2;

/// Raw code of a two-dimensional image view (`VK_IMAGE_VIEW_TYPE_2D`).
pub const IMAGE_VIEW_TYPE_2D: i32 = 1;

/// Raw code of the identity component swizzle
/// (`VK_COMPONENT_SWIZZLE_IDENTITY`).
pub const COMPONENT_SWIZZLE_IDENTITY: i32 = 0;

/// Raw bit of the color image aspect (`VK_IMAGE_ASPECT_COLOR_BIT`).
pub const IMAGE_ASPECT_COLOR: u32 = 1;

/// How swapchain images are shared between queue families.
#[derive(Clone, Copy, Debug, PartialEq, Eq, Structural)]
pub enum SharingMode {
    /// One family owns the images; the family-index list is empty.
    Exclusive,
    /// The images are shared across the listed families.
    Concurrent,
}

/// The swapchain and its per-image resources, as raw handles (zero is
/// the null sentinel). The image handles are driver-owned and never
/// destroyed individually; the image views are owned here and must each
/// be destroyed before the chain itself.
#[derive(Clone, Debug)]
pub struct SwapchainData {
    pub chain: u64,
    pub images: Vec<u64>,
    pub format: i32,
    pub extent: Extent2D,
    pub image_views: Vec<u64>,
}

impl SwapchainData {
    /// Internal consistency: no per-image resources without a chain, and
    /// the owned view handles are real and pairwise distinct, so each is
    /// released exactly once at teardown.
    pub open spec fn wf(self) -> bool {
        &&& self.chain == 0 ==> self.images@.len() == 0 && self.image_views@.len() == 0
        &&& forall|i: int| 0 <= i < self.image_views@.len() ==> self.image_views@[i] != 0
        &&& forall|i: int, j: int|
            0 <= i < j < self.image_views@.len() ==> self.image_views@[i] != self.image_views@[j]
    }

    /// No chain and no per-image resources.
    pub open spec fn is_empty(self) -> bool {
        &&& self.chain == 0
        &&& self.images@.len() == 0
        &&& self.image_views@.len() == 0
    }

    /// A fresh, not-yet-created swapchain slot.
    pub fn empty() -> (s: SwapchainData)
        ensures
            s.is_empty(),
            s.wf(),
            s.format == 0,
            s.extent == (Extent2D { width: 0, height: 0 }),
    {
        SwapchainData {
            chain: 0,
            images: Vec::new(),
            format: 0,
            extent: Extent2D { width: 0, height: 0 },
            image_views: Vec::new(),
        }
    }
}

/// The preferred surface format: 8-bit BGRA channels with the standard
/// non-linear sRGB color space.
pub open spec fn is_preferred_surface_format(f: SurfaceFormat) -> bool {
    f.format == FORMAT_B8G8R8A8_SRGB && f.color_space == COLOR_SPACE_SRGB_NONLINEAR
}

pub open spec fn preferred_surface_format() -> SurfaceFormat {
    SurfaceFormat { format: FORMAT_B8G8R8A8_SRGB, color_space: COLOR_SPACE_SRGB_NONLINEAR }
}

pub open spec fn has_preferred_surface_format(formats: Seq<SurfaceFormat>) -> bool {
    exists|i: int| 0 <= i < formats.len() && is_preferred_surface_format(formats[i])
}

/// The format the negotiator settles on: the preferred pair when any
/// supported format matches it, otherwise the first supported format.
pub open spec fn chosen_surface_format(formats: Seq<SurfaceFormat>) -> SurfaceFormat
    recommends
        formats.len() > 0,
{
    if has_preferred_surface_format(formats) {
        preferred_surface_format()
    } else {
        formats[0]
    }
}

/// Format selection is a pure function of the supported-format list, so
/// repeated selections over the same list agree; and when no supported
/// format matches the preferred 8-bit BGRA / non-linear pair, the
/// choice is exactly the first element of the list, however undesirable.
pub proof fn lemma_format_fallback(formats: Seq<SurfaceFormat>)
    requires
        formats.len() > 0,
        !has_preferred_surface_format(formats),
    ensures
        chosen_surface_format(formats) == formats[0],
{
}

/// The present mode the negotiator settles on: the low-latency mailbox
/// mode when offered, otherwise the always-available FIFO mode.
pub open spec fn chosen_present_mode(modes: Seq<i32>) -> i32 {
    if modes.contains(PRESENT_MODE_MAILBOX) {
        PRESENT_MODE_MAILBOX
    } else {
        PRESENT_MODE_FIFO
    }
}

/// `v` clamped into `[lo, hi]`, with `lo` winning if `lo > hi`.
pub open spec fn clamped_dimension(lo: u32, hi: u32, v: u32) -> u32 {
    let capped = if v < hi {
        v
    } else {
        hi
    };
    if capped < lo {
        lo
    } else {
        capped
    }
}

/// The extent the negotiator settles on: the surface-reported current
/// extent verbatim, unless its width carries the follow-window-size
/// sentinel (`u32::MAX`), in which case the window's framebuffer size is
/// clamped per-axis into the supported range.
pub open spec fn chosen_extent(capabilities: SurfaceCapabilities, window_size: Extent2D) -> Extent2D {
    if capabilities.current_extent.width != u32::MAX {
        capabilities.current_extent
    } else {
        Extent2D {
            width: clamped_dimension(
                capabilities.min_image_extent.width,
                capabilities.max_image_extent.width,
                window_size.width,
            ),
            height: clamped_dimension(
                capabilities.min_image_extent.height,
                capabilities.max_image_extent.height,
                window_size.height,
            ),
        }
    }
}

/// The image count to request: one more than the supported minimum,
/// clamped down to the maximum when the device reports one (zero means
/// unbounded).
pub open spec fn requested_image_count(capabilities: SurfaceCapabilities) -> int {
    if capabilities.max_image_count != 0
        && capabilities.min_image_count + 1 > capabilities.max_image_count {
        capabilities.max_image_count as int
    } else {
        capabilities.min_image_count + 1
    }
}

/// The sharing mode for the given resolved queue families: exclusive
/// when graphics and present are the same family, concurrent otherwise.
pub open spec fn chosen_sharing_mode(indices: QueueFamilyIndices) -> SharingMode {
    if indices.graphics == indices.present {
        SharingMode::Exclusive
    } else {
        SharingMode::Concurrent
    }
}

/// The family-index list that goes with [`chosen_sharing_mode`]: empty
/// for the exclusive mode, exactly the two distinct indices for the
/// concurrent mode.
pub open spec fn shared_queue_families(indices: QueueFamilyIndices) -> Seq<u32> {
    if indices.graphics == indices.present {
        Seq::empty()
    } else {
        seq![indices.graphics, indices.present]
    }
}

impl SwapchainData {
    /// Selects the surface format, preferring 8-bit BGRA with the
    /// standard non-linear color space and falling back to the first
    /// supported format; never fails on a non-empty list.
    pub fn get_swapchain_surface_format(formats: &Vec<SurfaceFormat>) -> (r: SurfaceFormat)
        requires
            formats@.len() > 0,
        ensures
            r == chosen_surface_format(formats@),
    {
        let n = formats.len();
        let mut i: usize = 0;
        while i < n
            invariant
                n == formats@.len(),
                i <= n,
                forall|j: int| 0 <= j < i ==> !is_preferred_surface_format(formats@[j]),
            decreases n - i,
        {
            let f = formats[i];
            if f.format == FORMAT_B8G8R8A8_SRGB && f.color_space == COLOR_SPACE_SRGB_NONLINEAR {
                proof {
                    assert(is_preferred_surface_format(formats@[i as int]));
                }
                return f;
            }
            i = i + 1;
        }
        formats[0]
    }

    /// Selects the present mode, preferring the low-latency mailbox mode
    /// and falling back to FIFO; never fails.
    pub fn get_swapchain_present_mode(present_modes: &Vec<i32>) -> (r: i32)
        ensures
            r == chosen_present_mode(present_modes@),
    {
        let n = present_modes.len();
        let mut i: usize = 0;
        while i < n
            invariant
                n == present_modes@.len(),
                i <= n,
                forall|j: int| 0 <= j < i ==> present_modes@[j] != PRESENT_MODE_MAILBOX,
            decreases n - i,
        {
            if present_modes[i] == PRESENT_MODE_MAILBOX {
                proof {
                    assert(present_modes@.contains(PRESENT_MODE_MAILBOX));
                }
                return PRESENT_MODE_MAILBOX;
            }
            i = i + 1;
        }
        PRESENT_MODE_FIFO
    }

    /// Derives the extent from the capability snapshot, falling back to
    /// the window's framebuffer size (clamped per-axis) when the surface
    /// reports the follow-window-size sentinel.
    pub fn get_swapchain_extent(window_size: Extent2D, capabilities: &SurfaceCapabilities) -> (r:
        Extent2D)
        ensures
            r == chosen_extent(*capabilities, window_size),
    {
        if capabilities.current_extent.width != u32::MAX {
            capabilities.current_extent
        } else {
            Extent2D {
                width: clamp_dimension(
                    capabilities.min_image_extent.width,
                    capabilities.max_image_extent.width,
                    window_size.width,
                ),
                height: clamp_dimension(
                    capabilities.min_image_extent.height,
                    capabilities.max_image_extent.height,
                    window_size.height,
                ),
            }
        }
    }

    /// Computes the image count to request from the capability snapshot.
    pub fn get_swapchain_image_count(capabilities: &SurfaceCapabilities) -> (n: u32)
        requires
            capabilities.min_image_count < u32::MAX,
        ensures
            n == requested_image_count(*capabilities),
    {
        let mut count = capabilities.min_image_count + 1;
        if capabilities.max_image_count != 0 && count > capabilities.max_image_count {
            count = capabilities.max_image_count;
        }
        count
    }
}

fn clamp_dimension(lo: u32, hi: u32, v: u32) -> (r: u32)
    ensures
        r == clamped_dimension(lo, hi, v),
{
    let capped = if v < hi {
        v
    } else {
        hi
    };
    if capped < lo {
        lo
    } else {
        capped
    }
}

/// Everything the swapchain-creation call needs, fixed by policy or
/// chosen by the negotiator. The fixed policy is: a single array layer,
/// color-attachment usage only, the surface's current transform taken
/// as-is, opaque composite alpha, clipping enabled, and no previous
/// chain.
#[derive(Clone, Debug)]
pub struct SwapchainConfig {
    pub min_image_count: u32,
    pub format: SurfaceFormat,
    pub present_mode: i32,
    pub extent: Extent2D,
    pub image_array_layers: u32,
    pub sharing_mode: SharingMode,
    pub queue_family_indices: Vec<u32>,
    pub pre_transform: u32,
    pub clipped: bool,
}

impl SwapchainConfig {
    /// Plans a swapchain from a freshly queried capability snapshot, the
    /// resolved queue families, and the window's current framebuffer
    /// size. The snapshot must be re-queried at build time rather than
    /// reused from selection time, since the window may have changed
    /// size in between.
    pub fn plan(
        support: &SwapchainSupport,
        indices: &QueueFamilyIndices,
        window_size: Extent2D,
    ) -> (c: SwapchainConfig)
        requires
            support.formats@.len() > 0,
            support.capabilities.min_image_count < u32::MAX,
        ensures
            c.min_image_count == requested_image_count(support.capabilities),
            c.format == chosen_surface_format(support.formats@),
            c.present_mode == chosen_present_mode(support.present_modes@),
            c.extent == chosen_extent(support.capabilities, window_size),
            c.image_array_layers == 1,
            c.sharing_mode == chosen_sharing_mode(*indices),
            c.queue_family_indices@ == shared_queue_families(*indices),
            c.pre_transform == support.capabilities.current_transform,
            c.clipped,
    {
        let format = SwapchainData::get_swapchain_surface_format(&support.formats);
        let present_mode = SwapchainData::get_swapchain_present_mode(&support.present_modes);
        let extent = SwapchainData::get_swapchain_extent(window_size, &support.capabilities);
        let min_image_count = SwapchainData::get_swapchain_image_count(&support.capabilities);

        let concurrent = indices.graphics != indices.present;
        let mut queue_family_indices: Vec<u32> = Vec::new();
        if concurrent {
            queue_family_indices.push(indices.graphics);
            queue_family_indices.push(indices.present);
        }
        let sharing_mode = if concurrent {
            SharingMode::Concurrent
        } else {
            SharingMode::Exclusive
        };
        proof {
            assert(queue_family_indices@ =~= shared_queue_families(*indices));
        }

        SwapchainConfig {
            min_image_count,
            format,
            present_mode,
            extent,
            image_array_layers: 1,
            sharing_mode,
            queue_family_indices,
            pre_transform: support.capabilities.current_transform,
            clipped: true,
        }
    }
}

/// How one per-image view is to be created, as plain values.
#[derive(Clone, Copy, Debug, PartialEq, Eq, Structural)]
pub struct ImageViewConfig {
    pub image: u64,
    pub view_type: i32,
    pub format: i32,
    /// The swizzle applied to each of the four color channels.
    pub components: i32,
    pub aspect_mask: u32,
    pub base_mip_level: u32,
    pub level_count: u32,
    pub base_array_layer: u32,
    pub layer_count: u32,
}

/// The fixed per-image view policy: a two-dimensional view of the given
/// image and format with identity channel swizzling and a color-aspect,
/// single-mip, single-layer subresource range.
pub open spec fn is_standard_color_view(v: ImageViewConfig, image: u64, format: i32) -> bool {
    &&& v.image == image
    &&& v.view_type == IMAGE_VIEW_TYPE_2D
    &&& v.format == format
    &&& v.components == COMPONENT_SWIZZLE_IDENTITY
    &&& v.aspect_mask == IMAGE_ASPECT_COLOR
    &&& v.base_mip_level == 0
    &&& v.level_count == 1
    &&& v.base_array_layer == 0
    &&& v.layer_count == 1
}

impl SwapchainData {
    /// Plans one standard color view per fetched image, in image order.
    pub fn plan_image_views(images: &Vec<u64>, format: i32) -> (views: Vec<ImageViewConfig>)
        ensures
            views@.len() == images@.len(),
            forall|i: int|
                0 <= i < images@.len() ==> is_standard_color_view(
                    #[trigger] views@[i],
                    images@[i],
                    format,
                ),
    {
        let n = images.len();
        let mut views: Vec<ImageViewConfig> = Vec::new();
        let mut i: usize = 0;
        while i < n
            invariant
                n == images@.len(),
                i <= n,
                views@.len() == i,
                forall|j: int|
                    0 <= j < i ==> is_standard_color_view(
                        #[trigger] views@[j],
                        images@[j],
                        format,
                    ),
            decreases n - i,
        {
            views.push(
                ImageViewConfig {
                    image: images[i],
                    view_type: IMAGE_VIEW_TYPE_2D,
                    format,
                    components: COMPONENT_SWIZZLE_IDENTITY,
                    aspect_mask: IMAGE_ASPECT_COLOR,
                    base_mip_level: 0,
                    level_count: 1,
                    base_array_layer: 0,
                    layer_count: 1,
                },
            );
            i = i + 1;
        }
        views
    }
}

} // verus!
