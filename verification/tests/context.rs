use vkbase::context::debug::{
    debug_utils_labels, DebugReportConfig, DebugTarget, DebugType, DebugUtilsConfig, ValidationConfig, VkDebugger,
};
use vkbase::context::instance::{
    has_interior_nul, is_all_instance_layer_support, plan_instance, require_extensions, InstanceConfig, InstanceExtension,
};
use vkbase::context::logical::{request_device_queues, LogicDevConfig, QUEUE_COMPUTE, QUEUE_GRAPHICS, QUEUE_TRANSFER};
use vkbase::context::physical::{
    device_type_name, find_depth_format, is_all_extension_support, preference_order, select_physical_device,
    DeviceCandidate, DeviceExtensionType, PhysicalDevConfig, FEATURE_COUNT,
};
use vkbase::context::queue::{QueueFamilyInfo, QueueRequestStrategy, QueueRequester};
use vkbase::context::swapchain::{
    acquire_outcome, optimal_format, optimal_present_mode, present_outcome, swapchain_capability, swapchain_image_view_ci,
    Extent2D, SurfaceCapabilities, SurfaceFormat, SwapchainConfig, SwapchainFormat, SwapchainSyncError,
};
use vkbase::error::VkError;
use vkbase::vkflags::make_version;

fn family(flags: u32, count: u32) -> QueueFamilyInfo {
    QueueFamilyInfo { queue_flags: flags, queue_count: count }
}

#[test]
fn queue_requests_prefer_dedicated_families() {
    let families = vec![
        family(QUEUE_GRAPHICS | QUEUE_COMPUTE | QUEUE_TRANSFER, 2),
        family(QUEUE_TRANSFER, 1),
    ];
    let mut requester = QueueRequester::new(families, QueueRequestStrategy::ExclusiveQueueCrossFamily);
    // graphics comes from the only family that has it.
    assert_eq!(requester.request_queue(QUEUE_GRAPHICS, 0x3f80_0000), Ok(0));
    assert_eq!(requester.dispatch_queue(0), (0, 0));
    // transfer comes from the family that does nothing else.
    assert_eq!(requester.request_queue(QUEUE_TRANSFER, 0x3f80_0000), Ok(1));
    assert_eq!(requester.dispatch_queue(1), (1, 0));
    // the dedicated family is full now, so the next transfer queue comes from family 0.
    assert_eq!(requester.request_queue(QUEUE_TRANSFER, 0x3f00_0000), Ok(2));
    assert_eq!(requester.dispatch_queue(2), (0, 1));
    // both families are full.
    assert_eq!(requester.request_queue(QUEUE_TRANSFER, 0), Err(VkError::QueueUnavailable(QUEUE_TRANSFER)));
    let cis = requester.queue_cis();
    assert_eq!(cis.len(), 2);
    assert_eq!(cis[0].family_index, 0);
    assert_eq!(cis[0].priorities, vec![0x3f80_0000, 0x3f00_0000]);
    assert_eq!(cis[1].family_index, 1);
    assert_eq!(cis[1].priorities, vec![0x3f80_0000]);
}

#[test]
fn unsupported_queue_is_refused() {
    let mut requester = QueueRequester::new(vec![family(QUEUE_GRAPHICS, 1)], QueueRequestStrategy::ExclusiveQueueCrossFamily);
    assert_eq!(requester.request_queue(QUEUE_COMPUTE, 0), Err(VkError::QueueUnavailable(QUEUE_COMPUTE)));
    assert!(requester.queue_cis().is_empty());
}

#[test]
fn logical_device_queue_plan() {
    let config = LogicDevConfig::default();
    assert_eq!(config.request_queues, QUEUE_GRAPHICS | QUEUE_TRANSFER);
    let families = vec![family(QUEUE_GRAPHICS | QUEUE_TRANSFER, 1), family(QUEUE_TRANSFER, 1)];
    let mut requester = QueueRequester::new(families, QueueRequestStrategy::ExclusiveQueueCrossFamily);
    let info = request_device_queues(&mut requester, &config).unwrap();
    assert_eq!(info.graphics_index, Some(0));
    assert_eq!(info.compute_index, None);
    assert_eq!(info.transfer_index, Some(1));
    let assignment = info.dispatch_queues(&requester);
    assert_eq!(assignment.graphics, Some((0, 0)));
    assert_eq!(assignment.compute, None);
    assert_eq!(assignment.transfer, Some((1, 0)));
}

#[test]
fn logical_device_without_compute_family_fails() {
    let config = LogicDevConfig { request_queues: QUEUE_GRAPHICS | QUEUE_COMPUTE };
    let mut requester = QueueRequester::new(vec![family(QUEUE_GRAPHICS, 4)], QueueRequestStrategy::ExclusiveQueueCrossFamily);
    assert_eq!(request_device_queues(&mut requester, &config).err(), Some(VkError::QueueUnavailable(QUEUE_COMPUTE)));
}

fn candidate(device_type: i32, extensions: &[&str]) -> DeviceCandidate {
    DeviceCandidate {
        device_type,
        extensions: extensions.iter().map(|e| e.to_string()).collect(),
        features: vec![0u32; FEATURE_COUNT],
    }
}

#[test]
fn physical_device_selection() {
    let config = PhysicalDevConfig::default();
    assert_eq!(config.device_type_preference(), 2);
    assert_eq!(config.enable_extensions(), &vec![DeviceExtensionType::Swapchain.name()]);
    assert_eq!(DeviceExtensionType::Swapchain.name(), "VK_KHR_swapchain");
    assert_eq!(config.enable_features().len(), FEATURE_COUNT);

    // integrated, discrete, discrete without the swapchain extension.
    let candidates = vec![
        candidate(1, &["VK_KHR_swapchain"]),
        candidate(2, &["VK_KHR_swapchain"]),
        candidate(2, &[]),
    ];
    assert_eq!(preference_order(&vec![1, 2, 2], 2), vec![1, 2, 0]);
    // the last suitable device in order of preference is chosen.
    assert_eq!(select_physical_device(&candidates, &config), Ok(0));
    let discrete_only = vec![candidate(2, &["VK_KHR_swapchain"]), candidate(1, &[])];
    assert_eq!(select_physical_device(&discrete_only, &config), Ok(0));
    assert_eq!(
        select_physical_device(&vec![candidate(2, &[])], &config),
        Err(VkError::Custom("Failed to find supportive Vulkan device."))
    );
}

#[test]
fn extension_support() {
    let available = vec!["a".to_string(), "b".to_string()];
    assert!(is_all_extension_support(&available, &vec!["b".to_string()]));
    assert!(!is_all_extension_support(&available, &vec!["b".to_string(), "c".to_string()]));
    assert!(is_all_extension_support(&available, &Vec::new()));
}

#[test]
fn depth_format_choice() {
    let features = [0u32, 0, 0b10_0000_0000, 0b10_0000_0000, 0];
    // D24_UNORM_S8_UINT is the first candidate with depth-stencil support.
    assert_eq!(find_depth_format(&features), Some(129));
    assert_eq!(find_depth_format(&[0; 5]), None);
    assert_eq!(device_type_name(2), "Discrete GPU");
    assert_eq!(device_type_name(9), "Unknown");
}

fn caps(current: Extent2D, min_count: u32, max_count: u32) -> SurfaceCapabilities {
    SurfaceCapabilities {
        min_image_count: min_count,
        max_image_count: max_count,
        current_extent: current,
        min_image_extent: Extent2D { width: 100, height: 100 },
        max_image_extent: Extent2D { width: 1920, height: 1080 },
        max_image_array_layers: 1,
        supported_transforms: 0b1,
        current_transform: 0b1,
        supported_composite_alpha: 0b1010,
        supported_usage_flags: 0b10011,
    }
}

#[test]
fn swapchain_parameters() {
    let config = SwapchainConfig {
        present_vsync: false,
        dimension_preference: Extent2D { width: 4000, height: 50 },
        image_acquire_time: 0,
    };
    let special = Extent2D { width: 0xFFFF_FFFF, height: 0xFFFF_FFFF };
    let c = swapchain_capability(&caps(special, 2, 2), &config);
    assert_eq!(c.swapchain_extent, Extent2D { width: 1920, height: 100 });
    assert_eq!(c.desired_image_count, 2);
    assert_eq!(c.support_usage, 0b10011);
    assert_eq!(c.pre_transform, 0b1);
    assert_eq!(c.composite_alpha, 0b10);
    let c = swapchain_capability(&caps(Extent2D { width: 800, height: 600 }, 2, 0), &config);
    assert_eq!(c.swapchain_extent, Extent2D { width: 800, height: 600 });
    assert_eq!(c.desired_image_count, 3);
}

#[test]
fn present_mode_and_format() {
    let vsync = SwapchainConfig { present_vsync: true, dimension_preference: Extent2D { width: 1, height: 1 }, image_acquire_time: 0 };
    let no_vsync = SwapchainConfig { present_vsync: false, ..vsync };
    assert_eq!(optimal_present_mode(&vsync, &vec![0, 1]), 2);
    assert_eq!(optimal_present_mode(&no_vsync, &vec![2, 0, 1]), 0);
    assert_eq!(optimal_present_mode(&no_vsync, &vec![1, 0]), 1);
    assert_eq!(optimal_present_mode(&no_vsync, &vec![2]), 2);

    let undefined = vec![SurfaceFormat { format: 0, color_space: 7 }];
    let f = optimal_format(&undefined);
    assert_eq!((f.color_format, f.color_space), (44, 7));
    let listed = vec![SurfaceFormat { format: 50, color_space: 0 }, SurfaceFormat { format: 44, color_space: 1 }];
    let f = optimal_format(&listed);
    assert_eq!((f.color_format, f.color_space), (44, 1));
    let other = vec![SurfaceFormat { format: 50, color_space: 3 }];
    let f = optimal_format(&other);
    assert_eq!((f.color_format, f.color_space), (50, 3));
}

#[test]
fn acquire_and_present_results() {
    assert_eq!(acquire_outcome(Ok((3, false))), Ok(3));
    assert_eq!(acquire_outcome(Ok((3, true))), Err(SwapchainSyncError::SubOptimal));
    assert_eq!(acquire_outcome(Err(2)), Err(SwapchainSyncError::TimeOut));
    assert_eq!(acquire_outcome(Err(-1000001004)), Err(SwapchainSyncError::SurfaceOutDate));
    assert_eq!(acquire_outcome(Err(-4)), Err(SwapchainSyncError::Unknown));
    assert_eq!(present_outcome(Ok(false)), Ok(()));
    assert_eq!(present_outcome(Ok(true)), Err(SwapchainSyncError::SubOptimal));
    assert_eq!(present_outcome(Err(-4)), Err(SwapchainSyncError::Unknown));
}

#[test]
fn instance_defaults() {
    let config = InstanceConfig::default();
    assert_eq!(config.api_version, make_version(1, 0, 0));
    assert_eq!(config.engine_version, make_version(1, 0, 97));
    assert_eq!(config.application_name, "Vulkan Application");
    assert_eq!(config.engine_name, "Engine powered by Vulkan");
    assert_eq!(config.require_layer_names, vec!["VK_LAYER_LUNARG_standard_validation".to_string()]);
    assert_eq!(config.debug, DebugType::DebugUtils);
    assert!(!config.print_available_layers);
}

#[test]
fn instance_plan_checks() {
    let available = vec!["VK_LAYER_LUNARG_standard_validation".to_string()];
    let plan = plan_instance(&InstanceConfig::default(), &available).unwrap();
    assert_eq!(
        plan.extensions,
        vec![InstanceExtension::Surface, InstanceExtension::PlatformSurface, InstanceExtension::DebugUtils]
    );
    assert_eq!(plan.engine_version, make_version(1, 0, 97));

    assert_eq!(
        plan_instance(&InstanceConfig::default(), &Vec::new()).err(),
        Some(VkError::Unsupported("Some of Vulkan instance layer"))
    );
    let mut bad_name = InstanceConfig::default();
    bad_name.application_name = "app\0name".to_string();
    assert_eq!(
        plan_instance(&bad_name, &available).err(),
        Some(VkError::Other("Failed to cast application name to CString."))
    );
    let mut bad_engine = InstanceConfig::default();
    bad_engine.engine_name = "\0".to_string();
    assert_eq!(
        plan_instance(&bad_engine, &available).err(),
        Some(VkError::Other("Failed to cast engine name to CString."))
    );
    let mut bad_layer = InstanceConfig::default();
    bad_layer.require_layer_names = vec!["x\0".to_string()];
    assert_eq!(
        plan_instance(&bad_layer, &vec!["x\0".to_string()]).err(),
        Some(VkError::Other("Failed to cast instance layer name to CString."))
    );
    assert!(has_interior_nul("a\0b"));
    assert!(!has_interior_nul("ab"));
    assert!(is_all_instance_layer_support(&available, &Vec::new()));
    assert_eq!(require_extensions(DebugType::Off), vec![InstanceExtension::Surface, InstanceExtension::PlatformSurface]);
    assert_eq!(require_extensions(DebugType::DebugReport)[2], InstanceExtension::DebugReport);
}

#[test]
fn debug_configuration() {
    assert_eq!(DebugType::default(), DebugType::Off);
    assert_eq!(DebugReportConfig::default().flags, 0x1A);
    let utils = DebugUtilsConfig::default();
    assert_eq!((utils.flags, utils.severity, utils.types), (0, 0x1100, 0x7));
    let config = ValidationConfig::default();
    assert_eq!(VkDebugger::new(config).target(), None);
    let report = ValidationConfig { debug_type: DebugType::DebugReport, ..config };
    assert_eq!(VkDebugger::new(report).target(), Some(DebugTarget::Report { flags: 0x1A }));
    let utils_config = ValidationConfig { debug_type: DebugType::DebugUtils, ..config };
    assert_eq!(
        VkDebugger::new(utils_config).target(),
        Some(DebugTarget::Utils { flags: 0, severity: 0x1100, types: 0x7 })
    );
    assert_eq!(debug_utils_labels(0x100, 0x2), ("[Warning]", "[Validation]"));
    assert_eq!(debug_utils_labels(0x1000, 0x4), ("[Error]", "[Performance]"));
    assert_eq!(debug_utils_labels(0x1100, 0x3), ("[Unknown]", "[Unknown]"));
    assert_eq!(debug_utils_labels(0x1, 0x1), ("[Verbose]", "[General]"));
    assert_eq!(debug_utils_labels(0x10, 0x1), ("[Info]", "[General]"));
}

#[test]
fn swapchain_image_views() {
    let view = swapchain_image_view_ci(42, SwapchainFormat { color_format: 44, color_space: 0 });
    assert_eq!((view.image, view.format, view.view_type), (42, 44, 1));
    assert_eq!((view.components.r, view.components.a), (3, 6));
    assert_eq!((view.subresource_range.level_count, view.subresource_range.layer_count), (1, 1));
}
