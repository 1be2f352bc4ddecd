use vstd::prelude::*;


verus! {

/// How hard the shader compiler optimizes.
#[derive(Debug, Clone, Copy, PartialEq, Eq, Structural)]
pub enum OptimizationLevel {
    /// No optimization.
    Zero,
    /// Optimize for size.
    Size,
    /// Optimize for speed.
    Performance,
}

/// The options that shaders are compiled with.
#[derive(Debug, Clone, Copy, PartialEq, Eq, Structural)]
pub struct ShadercOptions {
    pub optimal_level: OptimizationLevel,
    pub debug_info: bool,
    pub suppress_warning: bool,
    pub error_warning: bool,
}

impl Default for ShadercOptions {
    fn default() -> (options: ShadercOptions)
        ensures
            options == (ShadercOptions {
                optimal_level: OptimizationLevel::Performance,
                debug_info: true,
                suppress_warning: false,
                error_warning: true,
            }),
    {
        ShadercOptions {
            optimal_level: OptimizationLevel::Performance,
            debug_info: true,
            suppress_warning: false,
            error_warning: true,
        }
    }
}

/// One setting of the shader compiler's options.
#[derive(Debug, Clone, Copy, PartialEq, Eq, Structural)]
pub enum CompileOption {
    OptimizationLevel(OptimizationLevel),
    GenerateDebugInfo,
    SuppressWarnings,
    WarningsAsErrors,
}

/// The settings that `options` stands for, in the order they are applied.
pub open spec fn spec_compile_settings(options: ShadercOptions) -> Seq<CompileOption> {
    let s0 = seq![CompileOption::OptimizationLevel(options.optimal_level)];
    let s1 = if options.debug_info { s0.push(CompileOption::GenerateDebugInfo) } else { s0 };
    let s2 = if options.suppress_warning { s1.push(CompileOption::SuppressWarnings) } else { s1 };
    if options.error_warning { s2.push(CompileOption::WarningsAsErrors) } else { s2 }
}

impl ShadercOptions {
    /// The settings to apply to fresh compile options, which target Vulkan and
    /// GLSL: the optimization level, then each switch that is on.
    pub fn to_shaderc_options(&self) -> (settings: Vec<CompileOption>)
        ensures
            settings@ == spec_compile_settings(*self),
    {
        let mut settings: Vec<CompileOption> = Vec::new();
        settings.push(CompileOption::OptimizationLevel(self.optimal_level));
        if self.debug_info {
            settings.push(CompileOption::GenerateDebugInfo);
        }
        if self.suppress_warning {
            settings.push(CompileOption::SuppressWarnings);
        }
        if self.error_warning {
            settings.push(CompileOption::WarningsAsErrors);
        }
        settings
    }
}

/// The kind of shader that the compiler is asked for.
#[derive(Debug, Clone, Copy, PartialEq, Eq, Structural)]
pub enum ShaderKind {
    Vertex,
    Geometry,
    TessControl,
    TessEvaluation,
    Fragment,
    Compute,
    InferFromSource,
}

pub const SHADER_STAGE_VERTEX: u32 = 0x1;
pub const SHADER_STAGE_TESSELLATION_CONTROL: u32 = 0x2;
pub const SHADER_STAGE_TESSELLATION_EVALUATION: u32 = 0x4;
pub const SHADER_STAGE_GEOMETRY: u32 = 0x8;
pub const SHADER_STAGE_FRAGMENT: u32 = 0x10;
pub const SHADER_STAGE_COMPUTE: u32 = 0x20;

/// The shader kind of a shader stage: a single stage names its kind; any
/// other combination of stage bits leaves the kind to the source.
pub open spec fn spec_shader_kind(stage: u32) -> ShaderKind {
    if stage == SHADER_STAGE_VERTEX {
        ShaderKind::Vertex
    } else if stage == SHADER_STAGE_GEOMETRY {
        ShaderKind::Geometry
    } else if stage == SHADER_STAGE_TESSELLATION_CONTROL {
        ShaderKind::TessControl
    } else if stage == SHADER_STAGE_TESSELLATION_EVALUATION {
        ShaderKind::TessEvaluation
    } else if stage == SHADER_STAGE_FRAGMENT {
        ShaderKind::Fragment
    } else if stage == SHADER_STAGE_COMPUTE {
        ShaderKind::Compute
    } else {
        ShaderKind::InferFromSource
    }
}

pub fn cast_shaderc_kind(stage: u32) -> (kind: ShaderKind)
    ensures
        kind == spec_shader_kind(stage),
{
    if stage == SHADER_STAGE_VERTEX {
        ShaderKind::Vertex
    } else if stage == SHADER_STAGE_GEOMETRY {
        ShaderKind::Geometry
    } else if stage == SHADER_STAGE_TESSELLATION_CONTROL {
        ShaderKind::TessControl
    } else if stage == SHADER_STAGE_TESSELLATION_EVALUATION {
        ShaderKind::TessEvaluation
    } else if stage == SHADER_STAGE_FRAGMENT {
        ShaderKind::Fragment
    } else if stage == SHADER_STAGE_COMPUTE {
        ShaderKind::Compute
    } else {
        ShaderKind::InferFromSource
    }
}

/// The shader compiler's settings; the compiler itself is created next to it.
pub struct VkShaderCompiler {
    options: ShadercOptions,
}

impl VkShaderCompiler {
    /// The options that shaders are compiled with.
    pub closed spec fn compile_options(&self) -> ShadercOptions {
        self.options
    }

    /// A compiler with the default options.
    pub fn new() -> (compiler: VkShaderCompiler)
        ensures
            compiler.compile_options() == (ShadercOptions {
                optimal_level: OptimizationLevel::Performance,
                debug_info: true,
                suppress_warning: false,
                error_warning: true,
            }),
    {
        VkShaderCompiler { options: ShadercOptions::default() }
    }

    pub fn reset_compile_options(&mut self, options: ShadercOptions)
        ensures
            final(self).compile_options() == options,
    {
        self.options = options;
    }

    /// The settings that the next compilation applies.
    pub fn options(&self) -> (options: ShadercOptions)
        ensures
            options == self.compile_options(),
    {
        self.options
    }
}

} // verus!
