//! Instance configuration: the extension and layer lists requested at
//! instance creation, gated on the validation flag, and the check that
//! the validation layer is actually available.

use vstd::prelude::*;

use crate::device::{contains_name, names_of, spec_validation_layer_name, validation_layer_name};
use crate::StartupError;

verus! {

/// The name of the debug-utilities extension requested alongside the
/// validation layer.
pub open spec fn spec_debug_utils_extension_name() -> Seq<char> {
    "VK_EXT_debug_utils"@
}

/// The debug-utilities extension name as an owned value.
pub fn debug_utils_extension_name() -> (s: String)
    ensures
        s@ == spec_debug_utils_extension_name(),
{
    "VK_EXT_debug_utils".to_owned()
}

/// Everything the instance creation call needs, as plain values: the
/// extensions to enable, the layers to enable, and whether a
/// debug-message callback is to be registered after creation.
#[derive(Clone, Debug)]
pub struct InstanceConfig {
    pub extensions: Vec<String>,
    pub layers: Vec<String>,
    pub enable_debug_messenger: bool,
}

/// Derives the instance configuration from the window's required
/// presentation extensions and the enumerated available layers. When
/// validation is enabled, the validation layer must be available —
/// otherwise startup fails — and the debug-utilities extension and the
/// layer are added to the request; the debug messenger is registered
/// exactly in that case.
pub fn build_instance_config(
    window_extensions: Vec<String>,
    available_layers: &Vec<String>,
    validation: bool,
) -> (r: Result<InstanceConfig, StartupError>)
    ensures
        r is Ok <==> (validation ==> names_of(available_layers@).contains(
            spec_validation_layer_name(),
        )),
        r matches Err(e) ==> e == StartupError::ValidationLayerUnavailable,
        r matches Ok(c) ==> {
            &&& c.enable_debug_messenger == validation
            &&& validation ==> names_of(c.extensions@) == names_of(window_extensions@).push(
                spec_debug_utils_extension_name(),
            )
            &&& !validation ==> names_of(c.extensions@) == names_of(window_extensions@)
            &&& validation ==> names_of(c.layers@) == seq![spec_validation_layer_name()]
            &&& !validation ==> c.layers@.len() == 0
        },
{
    let mut extensions = window_extensions;
    let mut layers: Vec<String> = Vec::new();
    if validation {
        let layer = validation_layer_name();
        if !contains_name(available_layers, &layer) {
            return Err(StartupError::ValidationLayerUnavailable);
        }
        extensions.push(debug_utils_extension_name());
        layers.push(layer);
        proof {
            assert(names_of(extensions@) =~= names_of(window_extensions@).push(
                spec_debug_utils_extension_name(),
            ));
            assert(names_of(layers@) =~= seq![spec_validation_layer_name()]);
        }
    }
    Ok(InstanceConfig { extensions, layers, enable_debug_messenger: validation })
}

} // verus!
