use vstd::prelude::*;

verus! {

/// The validation tool that reports Vulkan's messages.
#[derive(Debug, Clone, Copy, PartialEq, Eq, Structural)]
pub enum DebugType {
    DebugReport,
    DebugUtils,
    /// No validation tool.
    Off,
}

impl Default for DebugType {
    fn default() -> (t: DebugType)
        ensures
            t == DebugType::Off,
    {
        DebugType::Off
    }
}

pub const DEBUG_REPORT_INFORMATION: u32 = 0x1;
pub const DEBUG_REPORT_WARNING: u32 = 0x2;
pub const DEBUG_REPORT_PERFORMANCE_WARNING: u32 = 0x4;
pub const DEBUG_REPORT_ERROR: u32 = 0x8;
pub const DEBUG_REPORT_DEBUG: u32 = 0x10;

pub const SEVERITY_VERBOSE: u32 = 0x1;
pub const SEVERITY_INFO: u32 = 0x10;
pub const SEVERITY_WARNING: u32 = 0x100;
pub const SEVERITY_ERROR: u32 = 0x1000;

pub const MESSAGE_TYPE_GENERAL: u32 = 0x1;
pub const MESSAGE_TYPE_VALIDATION: u32 = 0x2;
pub const MESSAGE_TYPE_PERFORMANCE: u32 = 0x4;

/// The messages that Debug Report passes on.
#[derive(Debug, Clone, Copy, PartialEq, Eq, Structural)]
pub struct DebugReportConfig {
    pub flags: u32,
}

impl Default for DebugReportConfig {
    /// Debug messages, errors and warnings.
    fn default() -> (config: DebugReportConfig)
        ensures
            config.flags == DEBUG_REPORT_DEBUG | DEBUG_REPORT_ERROR | DEBUG_REPORT_WARNING,
    {
        DebugReportConfig { flags: DEBUG_REPORT_DEBUG | DEBUG_REPORT_ERROR | DEBUG_REPORT_WARNING }
    }
}

/// The messages that Debug Utils passes on.
#[derive(Debug, Clone, Copy, PartialEq, Eq, Structural)]
pub struct DebugUtilsConfig {
    pub flags: u32,
    pub severity: u32,
    pub types: u32,
}

impl Default for DebugUtilsConfig {
    /// Warnings and errors of every message type.
    fn default() -> (config: DebugUtilsConfig)
        ensures
            config.flags == 0,
            config.severity == SEVERITY_WARNING | SEVERITY_ERROR,
            config.types == MESSAGE_TYPE_GENERAL | MESSAGE_TYPE_PERFORMANCE | MESSAGE_TYPE_VALIDATION,
    {
        DebugUtilsConfig {
            flags: 0,
            severity: SEVERITY_WARNING | SEVERITY_ERROR,
            types: MESSAGE_TYPE_GENERAL | MESSAGE_TYPE_PERFORMANCE | MESSAGE_TYPE_VALIDATION,
        }
    }
}

/// Which validation tool to use and how each is configured.
#[derive(Debug, Clone, Copy, PartialEq, Eq, Structural)]
pub struct ValidationConfig {
    pub debug_type: DebugType,
    pub report_config: DebugReportConfig,
    pub utils_config: DebugUtilsConfig,
}

impl Default for ValidationConfig {
    fn default() -> (config: ValidationConfig)
        ensures
            config.debug_type == DebugType::Off,
            config.report_config.flags == DEBUG_REPORT_DEBUG | DEBUG_REPORT_ERROR | DEBUG_REPORT_WARNING,
            config.utils_config == (DebugUtilsConfig {
                flags: 0,
                severity: SEVERITY_WARNING | SEVERITY_ERROR,
                types: MESSAGE_TYPE_GENERAL | MESSAGE_TYPE_PERFORMANCE | MESSAGE_TYPE_VALIDATION,
            }),
    {
        ValidationConfig {
            debug_type: DebugType::default(),
            report_config: DebugReportConfig::default(),
            utils_config: DebugUtilsConfig::default(),
        }
    }
}

/// The label of a message severity: one known severity bit names it.
pub open spec fn spec_severity_label(severity: u32) -> &'static str {
    if severity == SEVERITY_VERBOSE {
        "[Verbose]"
    } else if severity == SEVERITY_WARNING {
        "[Warning]"
    } else if severity == SEVERITY_ERROR {
        "[Error]"
    } else if severity == SEVERITY_INFO {
        "[Info]"
    } else {
        "[Unknown]"
    }
}

/// The label of a message type: one known type bit names it.
pub open spec fn spec_message_type_label(types: u32) -> &'static str {
    if types == MESSAGE_TYPE_GENERAL {
        "[General]"
    } else if types == MESSAGE_TYPE_PERFORMANCE {
        "[Performance]"
    } else if types == MESSAGE_TYPE_VALIDATION {
        "[Validation]"
    } else {
        "[Unknown]"
    }
}

/// The labels that a Debug Utils message is printed with: its severity, then its type.
pub fn debug_utils_labels(message_severity: u32, message_type: u32) -> (labels: (&'static str, &'static str))
    ensures
        labels.0 == spec_severity_label(message_severity),
        labels.1 == spec_message_type_label(message_type),
{
    let severity = if message_severity == SEVERITY_VERBOSE {
        "[Verbose]"
    } else if message_severity == SEVERITY_WARNING {
        "[Warning]"
    } else if message_severity == SEVERITY_ERROR {
        "[Error]"
    } else if message_severity == SEVERITY_INFO {
        "[Info]"
    } else {
        "[Unknown]"
    };
    let types = if message_type == MESSAGE_TYPE_GENERAL {
        "[General]"
    } else if message_type == MESSAGE_TYPE_PERFORMANCE {
        "[Performance]"
    } else if message_type == MESSAGE_TYPE_VALIDATION {
        "[Validation]"
    } else {
        "[Unknown]"
    };
    (severity, types)
}

/// The validation tool that is set up, with the settings it is created with.
#[derive(Debug, Clone, Copy, PartialEq, Eq, Structural)]
pub enum DebugTarget {
    /// A Debug Report callback for the messages in `flags`.
    Report { flags: u32 },
    /// A Debug Utils messenger.
    Utils { flags: u32, severity: u32, types: u32 },
}

/// The validation tool of a Vulkan instance.
pub struct VkDebugger {
    target: Option<DebugTarget>,
}

/// The tool that a validation configuration asks for.
pub open spec fn spec_debug_target(config: ValidationConfig) -> Option<DebugTarget> {
    match config.debug_type {
        DebugType::DebugReport => Some(DebugTarget::Report { flags: config.report_config.flags }),
        DebugType::DebugUtils => Some(
            DebugTarget::Utils {
                flags: config.utils_config.flags,
                severity: config.utils_config.severity,
                types: config.utils_config.types,
            },
        ),
        DebugType::Off => None,
    }
}

impl VkDebugger {
    pub closed spec fn spec_target(&self) -> Option<DebugTarget> {
        self.target
    }

    /// The validation tool that `config` asks for, or none.
    pub fn new(config: ValidationConfig) -> (debugger: VkDebugger)
        ensures
            debugger.spec_target() == spec_debug_target(config),
    {
        let target = match config.debug_type {
            DebugType::DebugReport => Some(DebugTarget::Report { flags: config.report_config.flags }),
            DebugType::DebugUtils => Some(
                DebugTarget::Utils {
                    flags: config.utils_config.flags,
                    severity: config.utils_config.severity,
                    types: config.utils_config.types,
                },
            ),
            DebugType::Off => None,
        };
        VkDebugger { target }
    }

    /// The tool to create, and later to destroy.
    pub fn target(&self) -> (target: Option<DebugTarget>)
        ensures
            target == self.spec_target(),
    {
        self.target
    }
}

} // verus!
