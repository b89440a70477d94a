//! Device probing and selection: per-device suitability checks in a
//! fixed, short-circuiting order, first-fit selection over the
//! enumerated devices, and the logical-device configuration derived from
//! the resolved queue families.

use vstd::prelude::*;

use crate::queue::{has_graphics_family, has_present_family, QueueFamilyIndices, QueueFamilyInfo};
use crate::surface::SwapchainSupport;
use crate::{StartupError, SuitabilityError};

verus! {

/// Raw code of the discrete/high-performance device class
/// (`VK_PHYSICAL_DEVICE_TYPE_DISCRETE_GPU`).
pub const DEVICE_TYPE_DISCRETE_GPU: i32 = 2;

/// The views of a list of names.
pub open spec fn names_of(names: Seq<String>) -> Seq<Seq<char>> {
    names.map_values(|s: String| s@)
}

/// The fixed set of device extensions every suitable device must offer:
/// at minimum the swapchain (presentation) capability.
pub open spec fn spec_required_device_extensions() -> Seq<Seq<char>> {
    seq!["VK_KHR_swapchain"@]
}

/// The name of the validation layer requested when validation is
/// enabled.
pub open spec fn spec_validation_layer_name() -> Seq<char> {
    "VK_LAYER_KHRONOS_validation"@
}

/// The required device extensions as owned names, in a fixed order.
pub fn required_device_extensions() -> (v: Vec<String>)
    ensures
        names_of(v@) == spec_required_device_extensions(),
{
    let mut v: Vec<String> = Vec::new();
    v.push("VK_KHR_swapchain".to_owned());
    proof {
        assert(names_of(v@) =~= spec_required_device_extensions());
    }
    v
}

/// The validation layer name as an owned value.
pub fn validation_layer_name() -> (s: String)
    ensures
        s@ == spec_validation_layer_name(),
{
    "VK_LAYER_KHRONOS_validation".to_owned()
}

/// Whether `names` holds a name whose characters equal `target`.
pub(crate) fn contains_name(names: &Vec<String>, target: &String) -> (b: bool)
    ensures
        b == names_of(names@).contains(target@),
{
    let n = names.len();
    let mut i: usize = 0;
    while i < n
        invariant
            n == names@.len(),
            i <= n,
            forall|j: int| 0 <= j < i ==> names_of(names@)[j] != target@,
        decreases n - i,
    {
        if names[i] == *target {
            proof {
                assert(names_of(names@)[i as int] == target@);
            }
            return true;
        }
        i = i + 1;
    }
    proof {
        assert(!names_of(names@).contains(target@));
    }
    false
}

/// Every required extension name occurs among the available ones.
pub open spec fn has_all_required_extensions(available: Seq<Seq<char>>) -> bool {
    forall|i: int|
        0 <= i < spec_required_device_extensions().len() ==> available.contains(
            #[trigger] spec_required_device_extensions()[i],
        )
}

/// Checks that the required device extensions are a subset of the
/// device's enumerated extension names.
pub fn check_physical_device_extensions(available: &Vec<String>) -> (r: Result<
    (),
    SuitabilityError,
>)
    ensures
        r is Ok <==> has_all_required_extensions(names_of(available@)),
        r matches Err(e) ==> e == SuitabilityError::MissingRequiredExtensions,
{
    let required = required_device_extensions();
    let n = required.len();
    let mut i: usize = 0;
    while i < n
        invariant
            n == required@.len(),
            i <= n,
            names_of(required@) == spec_required_device_extensions(),
            forall|j: int|
                0 <= j < i ==> names_of(available@).contains(
                    #[trigger] spec_required_device_extensions()[j],
                ),
        decreases n - i,
    {
        if !contains_name(available, &required[i]) {
            proof {
                assert(names_of(required@)[i as int] == spec_required_device_extensions()[i as int]);
            }
            return Err(SuitabilityError::MissingRequiredExtensions);
        }
        proof {
            assert(names_of(required@)[i as int] == spec_required_device_extensions()[i as int]);
        }
        i = i + 1;
    }
    Ok(())
}

/// Everything the prober reads about one candidate device, queried as a
/// snapshot: its human-readable name, device class (raw code), whether
/// the geometry-stage shading feature is present, its enumerated
/// extension names, its queue families, and its surface support.
#[derive(Clone, Debug)]
pub struct PhysicalDeviceInfo {
    pub name: String,
    pub device_type: i32,
    pub supports_geometry_shader: bool,
    pub extensions: Vec<String>,
    pub queue_families: Vec<QueueFamilyInfo>,
    pub swapchain_support: SwapchainSupport,
}

/// The prober's verdict, with its checks in the documented order, each
/// short-circuiting the later ones: device class, geometry-stage
/// feature, required extensions, queue-family resolution, and surface
/// format/present-mode support.
pub open spec fn spec_check_physical_device(d: PhysicalDeviceInfo) -> Result<
    (),
    SuitabilityError,
> {
    if d.device_type != DEVICE_TYPE_DISCRETE_GPU {
        Err(SuitabilityError::NotDiscreteGpu)
    } else if !d.supports_geometry_shader {
        Err(SuitabilityError::MissingGeometryShaderSupport)
    } else if !has_all_required_extensions(names_of(d.extensions@)) {
        Err(SuitabilityError::MissingRequiredExtensions)
    } else if !(has_graphics_family(d.queue_families@) && has_present_family(d.queue_families@)) {
        Err(SuitabilityError::MissingQueueFamilies)
    } else if !d.swapchain_support.suitable() {
        Err(SuitabilityError::InsufficientSwapchainSupport)
    } else {
        Ok(())
    }
}

/// Runs the suitability checks against one device snapshot. A failure
/// names the first check that failed and is recoverable at the
/// selection level; it is a pure query with no side effect.
pub fn check_physical_device(d: &PhysicalDeviceInfo) -> (r: Result<(), SuitabilityError>)
    requires
        d.queue_families@.len() <= u32::MAX,
    ensures
        r == spec_check_physical_device(*d),
{
    if d.device_type != DEVICE_TYPE_DISCRETE_GPU {
        return Err(SuitabilityError::NotDiscreteGpu);
    }
    if !d.supports_geometry_shader {
        return Err(SuitabilityError::MissingGeometryShaderSupport);
    }
    match check_physical_device_extensions(&d.extensions) {
        Err(e) => {
            return Err(e);
        },
        Ok(()) => {},
    }
    match QueueFamilyIndices::get(&d.queue_families) {
        Err(e) => {
            return Err(e);
        },
        Ok(_) => {},
    }
    if d.swapchain_support.formats.len() == 0 || d.swapchain_support.present_modes.len() == 0 {
        return Err(SuitabilityError::InsufficientSwapchainSupport);
    }
    Ok(())
}

/// Probing short-circuits in the documented order: a device of the
/// discrete class that lacks the geometry-stage shading feature is
/// rejected for exactly that reason, whatever its extensions, queue
/// families, or surface support look like — none of the later checks
/// is reached.
pub proof fn lemma_check_short_circuits_on_geometry(d: PhysicalDeviceInfo)
    requires
        d.device_type == DEVICE_TYPE_DISCRETE_GPU,
        !d.supports_geometry_shader,
    ensures
        spec_check_physical_device(d) == Err::<(), SuitabilityError>(
            SuitabilityError::MissingGeometryShaderSupport,
        ),
{
}

/// Enumerates the candidate devices in order and picks the first one
/// that passes every suitability check; per-device failures only
/// eliminate that candidate. Returns the index of the chosen device, or
/// a fatal error when no device is suitable.
pub fn pick_physical_device(devices: &Vec<PhysicalDeviceInfo>) -> (r: Result<usize, StartupError>)
    requires
        forall|i: int|
            0 <= i < devices@.len() ==> (#[trigger] devices@[i]).queue_families@.len() <= u32::MAX,
    ensures
        r is Ok <==> exists|i: int|
            0 <= i < devices@.len() && spec_check_physical_device(#[trigger] devices@[i]) is Ok,
        r matches Ok(i) ==> {
            &&& i < devices@.len()
            &&& spec_check_physical_device(devices@[i as int]) is Ok
            &&& forall|j: int|
                0 <= j < i ==> spec_check_physical_device(#[trigger] devices@[j]) is Err
        },
        r matches Err(e) ==> e == StartupError::NoSuitableDevice,
{
    let n = devices.len();
    let mut i: usize = 0;
    while i < n
        invariant
            n == devices@.len(),
            i <= n,
            forall|i0: int|
                0 <= i0 < devices@.len() ==> (#[trigger] devices@[i0]).queue_families@.len()
                    <= u32::MAX,
            forall|j: int| 0 <= j < i ==> spec_check_physical_device(#[trigger] devices@[j]) is Err,
        decreases n - i,
    {
        if check_physical_device(&devices[i]).is_ok() {
            return Ok(i);
        }
        i = i + 1;
    }
    Err(StartupError::NoSuitableDevice)
}

/// The queue-family indices to request queues from, deduplicated:
/// requesting the same family twice is invalid, and graphics and
/// present may be the same family.
pub open spec fn spec_unique_queue_families(indices: QueueFamilyIndices) -> Seq<u32> {
    if indices.graphics == indices.present {
        seq![indices.graphics]
    } else {
        seq![indices.graphics, indices.present]
    }
}

/// Everything the logical-device creation call needs, as plain values.
/// Each entry of `queue_families` requests a single queue at maximum
/// priority; after creation, one queue handle per required role is
/// retrieved at queue-index zero within its family.
#[derive(Clone, Debug)]
pub struct DeviceConfig {
    pub queue_families: Vec<u32>,
    pub layers: Vec<String>,
    pub extensions: Vec<String>,
}

/// Derives the logical-device configuration from the resolved queue
/// families: deduplicated queue requests, the validation layer exactly
/// when validation is enabled (mirroring the instance-level request for
/// backward-compatible tooling), and exactly the required device
/// extensions.
pub fn build_device_config(indices: &QueueFamilyIndices, validation: bool) -> (c: DeviceConfig)
    ensures
        c.queue_families@ == spec_unique_queue_families(*indices),
        validation ==> names_of(c.layers@) == seq![spec_validation_layer_name()],
        !validation ==> c.layers@.len() == 0,
        names_of(c.extensions@) == spec_required_device_extensions(),
{
    let mut queue_families: Vec<u32> = Vec::new();
    queue_families.push(indices.graphics);
    if indices.present != indices.graphics {
        queue_families.push(indices.present);
    }
    proof {
        assert(queue_families@ =~= spec_unique_queue_families(*indices));
    }

    let mut layers: Vec<String> = Vec::new();
    if validation {
        layers.push(validation_layer_name());
        proof {
            assert(names_of(layers@) =~= seq![spec_validation_layer_name()]);
        }
    }

    DeviceConfig { queue_families, layers, extensions: required_device_extensions() }
}

} // verus!
