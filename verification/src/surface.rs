//! Surface-side data model: pixel extents, surface formats, and the
//! capability snapshot that surface queries return for one device.

use vstd::prelude::*;

verus! {

/// A two-dimensional pixel size.
#[derive(Clone, Copy, Debug, PartialEq, Eq, Structural)]
pub struct Extent2D {
    pub width: u32,
    pub height: u32,
}

/// A surface format: a color-channel layout paired with a color space,
/// both as the raw numeric codes the driver reports.
#[derive(Clone, Copy, Debug, PartialEq, Eq, Structural)]
pub struct SurfaceFormat {
    pub format: i32,
    pub color_space: i32,
}

/// Surface capabilities reported for one device, as plain values.
///
/// A `max_image_count` of zero means the image count is unbounded. A
/// `current_extent.width` equal to `u32::MAX` is the sentinel saying the
/// extent follows the window size.
#[derive(Clone, Copy, Debug, PartialEq, Eq, Structural)]
pub struct SurfaceCapabilities {
    pub min_image_count: u32,
    pub max_image_count: u32,
    pub current_extent: Extent2D,
    pub min_image_extent: Extent2D,
    pub max_image_extent: Extent2D,
    /// Raw code of the transform the surface currently applies; the
    /// swapchain plan takes it as-is.
    pub current_transform: u32,
}

/// One device's swapchain support: the capability snapshot plus the
/// supported surface formats and present modes (raw codes), in the order
/// the driver enumerated them.
#[derive(Clone, Debug)]
pub struct SwapchainSupport {
    pub capabilities: SurfaceCapabilities,
    pub formats: Vec<SurfaceFormat>,
    pub present_modes: Vec<i32>,
}

impl SwapchainSupport {
    /// A device is presentable only if at least one format and one
    /// present mode are supported.
    pub open spec fn suitable(self) -> bool {
        self.formats@.len() > 0 && self.present_modes@.len() > 0
    }
}

} // verus!
