//! Bootstrap and resource-lifecycle sequencing for a Vulkan rendering
//! context: device suitability probing, queue-family resolution, surface
//! negotiation, swapchain planning, and strictly ordered teardown.
//!
//! All decision logic works over plain snapshot values that the caller
//! fills in from driver queries; the driver calls themselves stay outside
//! this crate and receive the planned parameters back as plain values.

use vstd::prelude::*;

pub mod context;
pub mod device;
pub mod instance;
pub mod queue;
pub mod surface;
pub mod swapchain;

verus! {

/// A reason a candidate physical device was rejected during probing.
///
/// Rejection is recoverable at the device-selection level: it only
/// eliminates one candidate.
#[derive(Clone, Copy, Debug, PartialEq, Eq, Structural)]
pub enum SuitabilityError {
    /// The device is not in the discrete/high-performance class.
    NotDiscreteGpu,
    /// The device lacks the geometry-stage shading feature.
    MissingGeometryShaderSupport,
    /// A required device extension is not among those the device offers.
    MissingRequiredExtensions,
    /// No graphics-capable queue family, or no family that can present
    /// to the bound surface.
    MissingQueueFamilies,
    /// The surface reports no supported format or no supported present
    /// mode for this device.
    InsufficientSwapchainSupport,
}

/// A fatal startup failure: any of these aborts the whole initialization
/// sequence immediately.
#[derive(Clone, Copy, Debug, PartialEq, Eq, Structural)]
pub enum StartupError {
    /// The native library or its entry points could not be loaded.
    LoaderFailure,
    /// The validation layer was requested but is not available.
    ValidationLayerUnavailable,
    /// No physical device passed all suitability checks.
    NoSuitableDevice,
    /// An underlying native creation call failed.
    NativeCallFailure,
}

} // verus!
