use vstd::prelude::*;

use crate::errors::InstanceCreationError;
use crate::names::{add_name, contains_name, names_contain, names_view, push_unique};

verus! {

/// The validation layer the engine will not run without.
pub open spec fn validation_layer_name() -> Seq<char> {
    "VK_LAYER_KHRONOS_validation"@
}

/// The instance extension that lets the loader list portability devices.
pub open spec fn portability_enumeration_extension_name() -> Seq<char> {
    "VK_KHR_portability_enumeration"@
}

/// The instance extension that carries validation messages to the engine.
pub open spec fn debug_utils_extension_name() -> Seq<char> {
    "VK_EXT_debug_utils"@
}

/// Whether the validation layer is among the installed instance layers.
pub fn check_validation_layer_support(available_layers: &Vec<String>) -> (r: bool)
    ensures
        r == names_contain(available_layers@, validation_layer_name()),
{
    let layer = "VK_LAYER_KHRONOS_validation".to_owned();
    contains_name(available_layers, &layer)
}

/// The extensions the platform needs to present to the window, with the
/// portability-enumeration extension added.
pub fn get_enabled_extensions(platform_required: Vec<String>) -> (r: Vec<String>)
    ensures
        names_view(r@) == add_name(
            names_view(platform_required@),
            portability_enumeration_extension_name(),
        ),
{
    let mut r = platform_required;
    push_unique(&mut r, "VK_KHR_portability_enumeration".to_owned());
    r
}

/// The instance extensions to enable: those of the platform, the
/// portability-enumeration extension, and the debug-utils extension. The
/// validation layer is mandatory: without it bring-up fails.
pub fn instance_extensions(platform_required: Vec<String>, available_layers: &Vec<String>) -> (r:
    Result<Vec<String>, InstanceCreationError>)
    ensures
        r is Err <==> !names_contain(available_layers@, validation_layer_name()),
        r is Err ==> r->Err_0 == InstanceCreationError::ValidationCheck,
        r is Ok ==> names_view(r->Ok_0@) == add_name(
            add_name(names_view(platform_required@), portability_enumeration_extension_name()),
            debug_utils_extension_name(),
        ),
{
    if !check_validation_layer_support(available_layers) {
        return Err(InstanceCreationError::ValidationCheck);
    }
    let mut r = get_enabled_extensions(platform_required);
    push_unique(&mut r, "VK_EXT_debug_utils".to_owned());
    Ok(r)
}

} // verus!
