use vstd::prelude::*;

use crate::context::debug::DebugType;
use crate::context::physical::{is_all_extension_support, spec_all_extensions_supported};
use crate::error::{VkError, VkResult};
use crate::vkflags::{make_version, spec_make_version};
use vstd::string::StringSliceAdditionalSpecFns;

verus! {

/// The settings that a Vulkan instance is created with.
pub struct InstanceConfig {
    /// The highest Vulkan version that the application is designed to use.
    pub api_version: u32,
    /// The version of the application.
    pub application_version: u32,
    /// The version of the engine.
    pub engine_version: u32,
    pub application_name: String,
    pub engine_name: String,
    /// Whether the available instance layers are printed.
    pub print_available_layers: bool,
    /// The instance layers to load.
    pub require_layer_names: Vec<String>,
    /// The validation tool.
    pub debug: DebugType,
}

impl Default for InstanceConfig {
    /// Vulkan 1.0, the standard validation layer and Debug Utils.
    fn default() -> (config: InstanceConfig)
        ensures
            config.api_version == spec_make_version(1, 0, 0),
            config.application_version == spec_make_version(1, 0, 0),
            config.engine_version == spec_make_version(1, 0, 97),
            config.application_name@ == "Vulkan Application"@,
            config.engine_name@ == "Engine powered by Vulkan"@,
            !config.print_available_layers,
            config.require_layer_names@.len() == 1,
            config.require_layer_names@[0]@ == "VK_LAYER_LUNARG_standard_validation"@,
            config.debug == DebugType::DebugUtils,
    {
        let mut require_layer_names: Vec<String> = Vec::new();
        // the validation layer is requested by default.
        require_layer_names.push("VK_LAYER_LUNARG_standard_validation".to_owned());
        InstanceConfig {
            api_version: make_version(1, 0, 0),
            application_version: make_version(1, 0, 0),
            engine_version: make_version(1, 0, 97),
            application_name: "Vulkan Application".to_owned(),
            engine_name: "Engine powered by Vulkan".to_owned(),
            print_available_layers: false,
            require_layer_names,
            debug: DebugType::DebugUtils,
        }
    }
}

/// The instance extensions that the library asks for.
#[derive(Debug, Clone, Copy, PartialEq, Eq, Structural)]
pub enum InstanceExtension {
    /// The surface extension.
    Surface,
    /// The surface extension of the window system of the platform.
    PlatformSurface,
    DebugReport,
    DebugUtils,
}

/// The instance extensions for the validation tool `debug`: the two surface
/// extensions, then the tool's own.
pub open spec fn spec_require_extensions(debug: DebugType) -> Seq<InstanceExtension> {
    let base = seq![InstanceExtension::Surface, InstanceExtension::PlatformSurface];
    match debug {
        DebugType::DebugReport => base.push(InstanceExtension::DebugReport),
        DebugType::DebugUtils => base.push(InstanceExtension::DebugUtils),
        DebugType::Off => base,
    }
}

pub fn require_extensions(debug: DebugType) -> (extensions: Vec<InstanceExtension>)
    ensures
        extensions@ == spec_require_extensions(debug),
{
    let mut instance_extensions: Vec<InstanceExtension> = Vec::new();
    instance_extensions.push(InstanceExtension::Surface);
    instance_extensions.push(InstanceExtension::PlatformSurface);
    match debug {
        DebugType::DebugReport => instance_extensions.push(InstanceExtension::DebugReport),
        DebugType::DebugUtils => instance_extensions.push(InstanceExtension::DebugUtils),
        DebugType::Off => {},
    }
    instance_extensions
}

/// The UTF-8 bytes of the text `chars` hold a NUL, which a C string cannot.
pub open spec fn spec_has_nul(chars: Seq<char>) -> bool {
    vstd::utf8::encode_utf8(chars).contains(0u8)
}

pub fn has_interior_nul(s: &str) -> (found: bool)
    ensures
        found == spec_has_nul(s@),
{
    let bytes = s.as_bytes();
    let n = bytes.len();
    for i in 0..n
        invariant
            n == bytes@.len(),
            bytes@ == s.spec_bytes(),
            forall|k: int| 0 <= k < i ==> bytes@[k] != 0u8,
    {
        if bytes[i] == 0u8 {
            return true;
        }
    }
    false
}

/// Checks that every required instance layer is among the available ones.
pub fn is_all_instance_layer_support(available: &Vec<String>, required: &Vec<String>) -> (res: bool)
    ensures
        res == spec_all_extensions_supported(
            available@.map_values(|name: String| name@),
            required@.map_values(|name: String| name@),
        ),
{
    is_all_extension_support(available, required)
}

/// The first layer name that a C string cannot hold, if any.
pub open spec fn spec_layers_have_nul(layers: Seq<String>) -> bool {
    exists|i: int| 0 <= i < layers.len() && spec_has_nul((#[trigger] layers[i])@)
}

/// What creating an instance is handed, once its settings were checked.
#[derive(Debug)]
pub struct InstancePlan {
    pub api_version: u32,
    pub application_version: u32,
    pub engine_version: u32,
    pub extensions: Vec<InstanceExtension>,
}

/// The outcome of checking an instance configuration against the available layers.
pub open spec fn spec_plan_error(config: &InstanceConfig, available_layers: Seq<Seq<char>>) -> Option<VkError> {
    if spec_has_nul(config.application_name@) {
        Some(VkError::Other("Failed to cast application name to CString."))
    } else if spec_has_nul(config.engine_name@) {
        Some(VkError::Other("Failed to cast engine name to CString."))
    } else if !spec_all_extensions_supported(
        available_layers,
        config.require_layer_names@.map_values(|name: String| name@),
    ) {
        Some(VkError::Unsupported("Some of Vulkan instance layer"))
    } else if spec_layers_have_nul(config.require_layer_names@) {
        Some(VkError::Other("Failed to cast instance layer name to CString."))
    } else {
        None
    }
}

/// Checks an instance configuration in the order the instance is created in:
/// the application and engine names, that every required layer is available,
/// the layer names; then names the extensions to enable.
pub fn plan_instance(config: &InstanceConfig, available_layers: &Vec<String>) -> (result: VkResult<InstancePlan>)
    ensures
        match spec_plan_error(config, available_layers@.map_values(|name: String| name@)) {
            Some(e) => result == Err::<InstancePlan, VkError>(e),
            None => result matches Ok(plan) && {
                &&& plan.api_version == config.api_version
                &&& plan.application_version == config.application_version
                &&& plan.engine_version == config.engine_version
                &&& plan.extensions@ == spec_require_extensions(config.debug)
            },
        },
{
    if has_interior_nul(config.application_name.as_str()) {
        return Err(VkError::Other("Failed to cast application name to CString."));
    }
    if has_interior_nul(config.engine_name.as_str()) {
        return Err(VkError::Other("Failed to cast engine name to CString."));
    }
    if !is_all_instance_layer_support(available_layers, &config.require_layer_names) {
        return Err(VkError::Unsupported("Some of Vulkan instance layer"));
    }
    let n = config.require_layer_names.len();
    for i in 0..n
        invariant
            n == config.require_layer_names@.len(),
            !spec_has_nul(config.application_name@),
            !spec_has_nul(config.engine_name@),
            spec_all_extensions_supported(
                available_layers@.map_values(|name: String| name@),
                config.require_layer_names@.map_values(|name: String| name@),
            ),
            forall|k: int| 0 <= k < i ==> !spec_has_nul((#[trigger] config.require_layer_names@[k])@),
    {
        if has_interior_nul(config.require_layer_names[i].as_str()) {
            assert(spec_has_nul(config.require_layer_names@[i as int]@));
            return Err(VkError::Other("Failed to cast instance layer name to CString."));
        }
    }
    Ok(InstancePlan {
        api_version: config.api_version,
        application_version: config.application_version,
        engine_version: config.engine_version,
        extensions: require_extensions(config.debug),
    })
}

} // verus!
