use vkbase::utils::frame::{FrameAction, FrameCounter};
use vkbase::utils::memory::{find_memory_type_index, get_memory_type_index, is_memory_support_flags, IntegerAlignable};
use vkbase::utils::shaderc::{cast_shaderc_kind, CompileOption, OptimizationLevel, ShaderKind, ShadercOptions, VkShaderCompiler};
use vkbase::utils::time::{TimeSpan, VkTimeDuration};
use vkbase::vkflags::{contains, make_version, version_parts};

#[test]
fn frame_counter_cycles_through_frames() {
    let mut counter = FrameCounter::new(3);
    assert_eq!(counter.current_frame(), 0);
    counter.next_frame();
    assert_eq!(counter.current_frame(), 1);
    counter.next_frame();
    assert_eq!(counter.current_frame(), 2);
    counter.next_frame();
    assert_eq!(counter.current_frame(), 0);
    for _ in 0..7 {
        counter.next_frame();
    }
    // ten steps from frame 0 land on frame 10 % 3.
    assert_eq!(counter.current_frame(), 1);
}

#[test]
fn frame_action_variants_differ() {
    assert_ne!(FrameAction::Rendering, FrameAction::Terminal);
    assert_ne!(FrameAction::SwapchainRecreate, FrameAction::Rendering);
}

#[test]
fn align_to_documented_examples() {
    assert_eq!(127u32.align_to(128), 128);
    assert_eq!(129u32.align_to(128), 256);
    assert_eq!(128u64.align_to(128), 128);
    assert_eq!(0usize.align_to(64), 0);
    assert_eq!(24u64.align_to(256), 256);
    assert_eq!(5u8.align_to(4), 8);
    assert_eq!(300u16.align_to(16), 304);
}

#[test]
fn memory_type_lookup() {
    // three memory types: device local, host visible | coherent, host visible.
    let types = vec![0b1u32, 0b110, 0b10];
    assert_eq!(find_memory_type_index(&types, 0b111, 0b110), Some(1));
    assert_eq!(find_memory_type_index(&types, 0b101, 0b010), Some(2));
    assert_eq!(find_memory_type_index(&types, 0b001, 0b010), None);
    assert_eq!(find_memory_type_index(&types, 0b100, 0b010), Some(2));
    assert_eq!(get_memory_type_index(&types, 0b111, 0b1), 0);
    assert!(is_memory_support_flags(&types, 1, 0b100));
    assert!(!is_memory_support_flags(&types, 2, 0b100));
}

#[test]
fn version_packing() {
    let v = make_version(1, 0, 97);
    assert_eq!(v, (1 << 22) | 97);
    assert_eq!(version_parts(v), (1, 0, 97));
    assert_eq!(version_parts(make_version(1, 2, 3)), (1, 2, 3));
    assert!(contains(0b1011, 0b0011));
    assert!(!contains(0b1011, 0b0100));
}

#[test]
fn shaderc_default_options() {
    let options = ShadercOptions::default();
    assert_eq!(options.optimal_level, OptimizationLevel::Performance);
    assert!(options.debug_info);
    assert!(!options.suppress_warning);
    assert!(options.error_warning);
    let settings = options.to_shaderc_options();
    assert_eq!(
        settings,
        vec![
            CompileOption::OptimizationLevel(OptimizationLevel::Performance),
            CompileOption::GenerateDebugInfo,
            CompileOption::WarningsAsErrors,
        ]
    );
}

#[test]
fn shaderc_options_with_every_switch() {
    let options = ShadercOptions {
        optimal_level: OptimizationLevel::Size,
        debug_info: false,
        suppress_warning: true,
        error_warning: false,
    };
    assert_eq!(
        options.to_shaderc_options(),
        vec![CompileOption::OptimizationLevel(OptimizationLevel::Size), CompileOption::SuppressWarnings]
    );
}

#[test]
fn shader_compiler_options() {
    let mut compiler = VkShaderCompiler::new();
    assert_eq!(compiler.options(), ShadercOptions::default());
    let options = ShadercOptions {
        optimal_level: OptimizationLevel::Zero,
        debug_info: false,
        suppress_warning: true,
        error_warning: false,
    };
    compiler.reset_compile_options(options);
    assert_eq!(compiler.options(), options);
}

#[test]
fn shader_kind_of_stage() {
    assert_eq!(cast_shaderc_kind(0x1), ShaderKind::Vertex);
    assert_eq!(cast_shaderc_kind(0x2), ShaderKind::TessControl);
    assert_eq!(cast_shaderc_kind(0x4), ShaderKind::TessEvaluation);
    assert_eq!(cast_shaderc_kind(0x8), ShaderKind::Geometry);
    assert_eq!(cast_shaderc_kind(0x10), ShaderKind::Fragment);
    assert_eq!(cast_shaderc_kind(0x20), ShaderKind::Compute);
    // all graphics stages, or a combination, leaves the kind to the source.
    assert_eq!(cast_shaderc_kind(0x1F), ShaderKind::InferFromSource);
    assert_eq!(cast_shaderc_kind(0x11), ShaderKind::InferFromSource);
}

#[test]
fn timeout_in_nanoseconds() {
    assert_eq!(u64::from(VkTimeDuration::Immediate), 0);
    assert_eq!(u64::from(VkTimeDuration::Infinite), u64::MAX);
    let span = TimeSpan::new(2, 500).unwrap();
    assert_eq!(span.as_secs(), 2);
    assert_eq!(span.subsec_nanos(), 500);
    assert_eq!(u64::from(VkTimeDuration::Time(span)), 2_000_000_500);
}

#[test]
fn time_span_limits() {
    assert!(TimeSpan::new(0, 1_000_000_000).is_none());
    assert!(TimeSpan::new(u64::MAX, 0).is_none());
    let largest = u64::MAX / 1_000_000_000;
    let span = TimeSpan::new(largest, 0).unwrap();
    assert_eq!(u64::from(VkTimeDuration::Time(span)), largest * 1_000_000_000);
}
