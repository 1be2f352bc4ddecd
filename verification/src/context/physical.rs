use vstd::prelude::*;

use crate::error::VkError;
use crate::seqs::{keep, last_value, lemma_keep_push, lemma_last_value_push};
use crate::vkflags::{contains, spec_contains};

verus! {

/// The number of boolean features in `vk::PhysicalDeviceFeatures`.
pub const FEATURE_COUNT: usize = 55;

/// `vk::PhysicalDeviceType::DISCRETE_GPU`.
pub const DEVICE_TYPE_DISCRETE_GPU: i32 = 2;

/// `vk::FormatFeatureFlags::DEPTH_STENCIL_ATTACHMENT`.
pub const FORMAT_FEATURE_DEPTH_STENCIL_ATTACHMENT: u32 = 0b10_0000_0000;

/// The device extensions this library knows by name.
#[derive(Debug, Clone, Copy, PartialEq, Eq, Structural)]
pub enum DeviceExtensionType {
    Swapchain,
}

impl DeviceExtensionType {
    /// The name under which Vulkan knows the extension.
    pub fn name(&self) -> (name: String)
        ensures
            name@ == "VK_KHR_swapchain"@,
    {
        match self {
            DeviceExtensionType::Swapchain => String::from_str("VK_KHR_swapchain"),
        }
    }
}

/// What a physical device has to offer before one of them is chosen.
#[derive(Debug)]
pub struct PhysicalDevConfig {
    print_device_properties: bool,
    device_type_preference: i32,
    print_available_extensions: bool,
    request_extensions: Vec<String>,
    print_available_features: bool,
    request_features: Vec<u32>,
}

impl PhysicalDevConfig {
    /// Whether the properties of the chosen device are printed.
    pub closed spec fn spec_print_device_properties(&self) -> bool {
        self.print_device_properties
    }

    /// The device type that is tried first (`vk::PhysicalDeviceType` as its raw value).
    pub closed spec fn spec_device_type_preference(&self) -> i32 {
        self.device_type_preference
    }

    /// Whether the extensions of each device are printed.
    pub closed spec fn spec_print_available_extensions(&self) -> bool {
        self.print_available_extensions
    }

    /// Whether the features of each device are printed.
    pub closed spec fn spec_print_available_features(&self) -> bool {
        self.print_available_features
    }

    /// The names of the extensions the device must support.
    pub closed spec fn spec_request_extensions(&self) -> Seq<Seq<char>> {
        self.request_extensions@.map_values(|name: String| name@)
    }

    /// The features to enable, one `vk::Bool32` per field of `vk::PhysicalDeviceFeatures`.
    pub closed spec fn spec_request_features(&self) -> Seq<u32> {
        self.request_features@
    }

    /// A discrete GPU is preferred, only the swapchain extension is required,
    /// no feature is requested and nothing is printed.
    pub fn default() -> (config: PhysicalDevConfig)
        ensures
            !config.spec_print_device_properties(),
            !config.spec_print_available_extensions(),
            !config.spec_print_available_features(),
            config.spec_device_type_preference() == DEVICE_TYPE_DISCRETE_GPU,
            config.spec_request_extensions() == seq!["VK_KHR_swapchain"@],
            config.spec_request_features() == Seq::new(FEATURE_COUNT as nat, |i: int| 0u32),
    {
        let mut request_features: Vec<u32> = Vec::new();
        for i in 0..FEATURE_COUNT
            invariant
                request_features@ == Seq::new(i as nat, |j: int| 0u32),
        {
            request_features.push(0);
        }
        let mut request_extensions: Vec<String> = Vec::new();
        request_extensions.push(DeviceExtensionType::Swapchain.name());
        let config = PhysicalDevConfig {
            print_device_properties: false,
            device_type_preference: DEVICE_TYPE_DISCRETE_GPU,
            print_available_extensions: false,
            request_extensions,
            print_available_features: false,
            request_features,
        };
        assert(config.spec_request_extensions() =~= seq!["VK_KHR_swapchain"@]);
        config
    }

    /// Whether the properties of the chosen device are printed.
    pub fn print_device_properties(&self) -> (b: bool)
        ensures
            b == self.spec_print_device_properties(),
    {
        self.print_device_properties
    }

    /// Whether the extensions of each device are printed.
    pub fn print_available_extensions(&self) -> (b: bool)
        ensures
            b == self.spec_print_available_extensions(),
    {
        self.print_available_extensions
    }

    /// Whether the features of each device are printed.
    pub fn print_available_features(&self) -> (b: bool)
        ensures
            b == self.spec_print_available_features(),
    {
        self.print_available_features
    }

    /// The device type that is tried first.
    pub fn device_type_preference(&self) -> (t: i32)
        ensures
            t == self.spec_device_type_preference(),
    {
        self.device_type_preference
    }

    /// The features to enable on the logical device.
    pub fn enable_features(&self) -> (features: &Vec<u32>)
        ensures
            features@ == self.spec_request_features(),
    {
        &self.request_features
    }

    /// The extensions to enable on the logical device.
    pub fn enable_extensions(&self) -> (extensions: &Vec<String>)
        ensures
            extensions@.map_values(|name: String| name@) == self.spec_request_extensions(),
    {
        &self.request_extensions
    }
}

/// What a physical device offers, as queried from Vulkan.
pub struct DeviceCandidate {
    /// `vk::PhysicalDeviceType` as its raw value.
    pub device_type: i32,
    /// The names of the extensions the device supports.
    pub extensions: Vec<String>,
    /// The features the device supports, one `vk::Bool32` per field of `vk::PhysicalDeviceFeatures`.
    pub features: Vec<u32>,
}

/// Every requested extension name is among the available ones.
pub open spec fn spec_all_extensions_supported(available: Seq<Seq<char>>, requested: Seq<Seq<char>>) -> bool {
    forall|r: int| 0 <= r < requested.len() ==> available.contains(#[trigger] requested[r])
}

/// No feature is requested (`1`) that the device lacks (`0`).
pub open spec fn spec_all_features_supported(available: Seq<u32>, requested: Seq<u32>) -> bool {
    forall|i: int|
        0 <= i < FEATURE_COUNT ==> !(#[trigger] requested[i] == 1 && available[i] == 0)
}

/// Checks that every requested extension is available.
pub fn is_all_extension_support(available: &Vec<String>, requested: &Vec<String>) -> (res: bool)
    ensures
        res == spec_all_extensions_supported(
            available@.map_values(|name: String| name@),
            requested@.map_values(|name: String| name@),
        ),
{
    let ghost av = available@.map_values(|name: String| name@);
    let ghost rq = requested@.map_values(|name: String| name@);
    let n = requested.len();
    for r in 0..n
        invariant
            n == requested@.len(),
            av == available@.map_values(|name: String| name@),
            rq == requested@.map_values(|name: String| name@),
            forall|k: int| 0 <= k < r ==> av.contains(#[trigger] rq[k]),
    {
        let m = available.len();
        let mut found = false;
        for a in 0..m
            invariant
                m == available@.len(),
                av == available@.map_values(|name: String| name@),
                r < requested@.len(),
                found == exists|k: int| 0 <= k < a && av[k] == requested@[r as int]@,
        {
            assert(av[a as int] == available@[a as int]@);
            if available[a] == requested[r] {
                found = true;
            }
        }
        if !found {
            assert(!av.contains(rq[r as int]));
            return false;
        }
        assert(rq[r as int] == requested@[r as int]@);
    }
    true
}

/// Checks that every requested feature is available.
pub fn is_all_features_support(available: &Vec<u32>, requested: &Vec<u32>) -> (res: bool)
    requires
        available.len() == FEATURE_COUNT,
        requested.len() == FEATURE_COUNT,
    ensures
        res == spec_all_features_supported(available@, requested@),
{
    for i in 0..FEATURE_COUNT
        invariant
            available.len() == FEATURE_COUNT,
            requested.len() == FEATURE_COUNT,
            forall|k: int| 0 <= k < i ==> !(#[trigger] requested@[k] == 1 && available@[k] == 0),
    {
        if requested[i] == 1 && available[i] == 0 {
            return false;
        }
    }
    true
}

/// The devices of the preferred type.
pub open spec fn spec_is_preferred(device_types: Seq<i32>, preference: i32) -> spec_fn(usize) -> bool {
    |i: usize| device_types[i as int] == preference
}

/// The devices of another type.
pub open spec fn spec_is_not_preferred(device_types: Seq<i32>, preference: i32) -> spec_fn(usize) -> bool {
    |i: usize| device_types[i as int] != preference
}

/// The device indices with the preferred type first, each group in its original order.
pub open spec fn spec_preference_order(device_types: Seq<i32>, preference: i32) -> Seq<usize> {
    let indices = Seq::new(device_types.len(), |i: int| i as usize);
    keep(indices, spec_is_preferred(device_types, preference)) + keep(
        indices,
        spec_is_not_preferred(device_types, preference),
    )
}

/// Orders the devices so that those of the preferred type come first.
pub fn preference_order(device_types: &Vec<i32>, preference: i32) -> (order: Vec<usize>)
    ensures
        order@ == spec_preference_order(device_types@, preference),
{
    let ghost types = device_types@;
    let ghost indices = Seq::new(types.len(), |i: int| i as usize);
    let ghost preferred = spec_is_preferred(types, preference);
    let ghost others = spec_is_not_preferred(types, preference);
    let n = device_types.len();
    let mut first: Vec<usize> = Vec::new();
    let mut second: Vec<usize> = Vec::new();
    for i in 0..n
        invariant
            n == types.len(),
            types == device_types@,
            indices == Seq::new(types.len(), |i: int| i as usize),
            preferred == spec_is_preferred(types, preference),
            others == spec_is_not_preferred(types, preference),
            first@ == keep(indices.take(i as int), preferred),
            second@ == keep(indices.take(i as int), others),
    {
        proof {
            assert(indices.take(i + 1) =~= indices.take(i as int).push(i));
            lemma_keep_push(indices.take(i as int), preferred, i);
            lemma_keep_push(indices.take(i as int), others, i);
        }
        if device_types[i] == preference {
            first.push(i);
        } else {
            second.push(i);
        }
    }
    assert(indices.take(n as int) =~= indices);
    let mut order = first;
    let mut j: usize = 0;
    let ghost head = order@;
    while j < second.len()
        invariant
            j <= second@.len(),
            order@ == head + second@.take(j as int),
        decreases second@.len() - j,
    {
        order.push(second[j]);
        assert(second@.take(j + 1) =~= second@.take(j as int).push(second@[j as int]));
        j = j + 1;
    }
    assert(second@.take(second@.len() as int) =~= second@);
    order
}

/// A device that supports every requested extension and feature.
pub open spec fn spec_device_suitable(candidates: Seq<(Seq<Seq<char>>, Seq<u32>)>, config_extensions: Seq<Seq<char>>, config_features: Seq<u32>) -> spec_fn(usize) -> bool {
    |i: usize| spec_all_extensions_supported(candidates[i as int].0, config_extensions)
        && candidates[i as int].1.len() == FEATURE_COUNT
        && spec_all_features_supported(candidates[i as int].1, config_features)
}

/// What the selection reads of each candidate: its extension names and its features.
pub open spec fn spec_candidate_view(c: DeviceCandidate) -> (Seq<Seq<char>>, Seq<u32>) {
    (c.extensions@.map_values(|name: String| name@), c.features@)
}

/// The device chosen among `candidates`: the last suitable one once they are
/// put in order of preference.
pub open spec fn spec_selected_device(candidates: Seq<DeviceCandidate>, config: PhysicalDevConfig) -> Option<usize> {
    last_value(
        spec_preference_order(candidates.map_values(|c: DeviceCandidate| c.device_type), config.spec_device_type_preference()),
        spec_device_suitable(
            candidates.map_values(|c: DeviceCandidate| spec_candidate_view(c)),
            config.spec_request_extensions(),
            config.spec_request_features(),
        ),
    )
}

/// Chooses the physical device to use among `candidates`; returns its index.
pub fn select_physical_device(candidates: &Vec<DeviceCandidate>, config: &PhysicalDevConfig) -> (res: Result<usize, VkError>)
    requires
        config.spec_request_features().len() == FEATURE_COUNT,
    ensures
        match spec_selected_device(candidates@, *config) {
            Some(i) => res == Ok::<usize, VkError>(i),
            None => res == Err::<usize, VkError>(VkError::Custom("Failed to find supportive Vulkan device.")),
        },
{
    let n = candidates.len();
    let mut device_types: Vec<i32> = Vec::new();
    for i in 0..n
        invariant
            n == candidates@.len(),
            device_types@ == candidates@.take(i as int).map_values(|c: DeviceCandidate| c.device_type),
    {
        device_types.push(candidates[i].device_type);
        assert(candidates@.take(i + 1).map_values(|c: DeviceCandidate| c.device_type) =~= candidates@.take(i as int).map_values(|c: DeviceCandidate| c.device_type).push(candidates@[i as int].device_type));
    }
    assert(candidates@.take(n as int) =~= candidates@);
    let order = preference_order(&device_types, config.device_type_preference());
    let ghost views = candidates@.map_values(|c: DeviceCandidate| spec_candidate_view(c));
    let ghost suitable = spec_device_suitable(views, config.spec_request_extensions(), config.spec_request_features());
    proof {
        let indices = Seq::new(device_types@.len(), |i: int| i as usize);
        assert forall|k: int| 0 <= k < order@.len() implies #[trigger] order@[k] < n by {
            let pref = config.spec_device_type_preference();
            lemma_keep_in_range(indices, spec_is_preferred(device_types@, pref), n);
            lemma_keep_in_range(indices, spec_is_not_preferred(device_types@, pref), n);
            let a = keep(indices, spec_is_preferred(device_types@, pref));
            let b = keep(indices, spec_is_not_preferred(device_types@, pref));
            assert(order@ == a + b);
            if k < a.len() {
                assert(order@[k] == a[k]);
            } else {
                assert(order@[k] == b[k - a.len()]);
            }
        }
    }

    let mut selected_device: Option<usize> = None;
    let m = order.len();
    for k in 0..m
        invariant
            m == order@.len(),
            n == candidates@.len(),
            forall|j: int| 0 <= j < order@.len() ==> #[trigger] order@[j] < n,
            views == candidates@.map_values(|c: DeviceCandidate| spec_candidate_view(c)),
            suitable == spec_device_suitable(views, config.spec_request_extensions(), config.spec_request_features()),
            config.spec_request_features().len() == FEATURE_COUNT,
            selected_device == last_value(order@.take(k as int), suitable),
    {
        let index = order[k];
        let candidate = &candidates[index];
        assert(views[index as int] == spec_candidate_view(candidates@[index as int]));
        // make sure all requested extensions and features are supported by the device.
        let extensions_ok = is_all_extension_support(&candidate.extensions, config.enable_extensions());
        let features_ok = if candidate.features.len() == FEATURE_COUNT {
            is_all_features_support(&candidate.features, config.enable_features())
        } else {
            false
        };
        proof {
            assert(order@.take(k + 1) =~= order@.take(k as int).push(index));
            lemma_last_value_push(order@.take(k as int), suitable, index);
        }
        if extensions_ok && features_ok {
            selected_device = Some(index);
        }
    }
    assert(order@.take(m as int) =~= order@);
    match selected_device {
        Some(index) => Ok(index),
        None => Err(VkError::Custom("Failed to find supportive Vulkan device.")),
    }
}

/// The indices kept from `0 .. n` stay below `n`.
proof fn lemma_keep_in_range(s: Seq<usize>, pred: spec_fn(usize) -> bool, n: usize)
    requires
        forall|i: int| 0 <= i < s.len() ==> #[trigger] s[i] < n,
    ensures
        forall|i: int| 0 <= i < keep(s, pred).len() ==> #[trigger] keep(s, pred)[i] < n,
    decreases s.len(),
{
    if s.len() > 0 {
        let prefix = s.drop_last();
        assert forall|i: int| 0 <= i < prefix.len() implies #[trigger] prefix[i] < n by {
            assert(prefix[i] == s[i]);
        }
        lemma_keep_in_range(prefix, pred, n);
        let kept = keep(prefix, pred);
        if pred(s.last()) {
            assert forall|i: int| 0 <= i < kept.push(s.last()).len() implies #[trigger] kept.push(
                s.last(),
            )[i] < n by {
                if i < kept.len() {
                    assert(kept.push(s.last())[i] == kept[i]);
                }
            }
        }
    }
}

/// `vk::Format::D32_SFLOAT_S8_UINT`: 32-bit float depth and 8-bit stencil.
pub const FORMAT_D32_SFLOAT_S8_UINT: i32 = 130;

/// `vk::Format::D32_SFLOAT`: 32-bit float depth.
pub const FORMAT_D32_SFLOAT: i32 = 126;

/// `vk::Format::D24_UNORM_S8_UINT`: 24-bit normalized depth and 8-bit stencil.
pub const FORMAT_D24_UNORM_S8_UINT: i32 = 129;

/// `vk::Format::D16_UNORM_S8_UINT`: 16-bit normalized depth and 8-bit stencil.
pub const FORMAT_D16_UNORM_S8_UINT: i32 = 128;

/// `vk::Format::D16_UNORM`: 16-bit normalized depth.
pub const FORMAT_D16_UNORM: i32 = 124;

/// The candidate depth formats, from the highest precision down.
pub open spec fn spec_depth_format_candidates() -> Seq<i32> {
    seq![130i32, 126i32, 129i32, 128i32, 124i32]
}

/// The candidate depth formats (`vk::Format` raw values), in the order they are tried.
pub fn depth_format_candidates() -> (formats: [i32; 5])
    ensures
        formats@ == spec_depth_format_candidates(),
        formats@ == seq![
            FORMAT_D32_SFLOAT_S8_UINT,
            FORMAT_D32_SFLOAT,
            FORMAT_D24_UNORM_S8_UINT,
            FORMAT_D16_UNORM_S8_UINT,
            FORMAT_D16_UNORM,
        ],
{
    // D32_SFLOAT_S8_UINT, D32_SFLOAT, D24_UNORM_S8_UINT, D16_UNORM_S8_UINT, D16_UNORM
    let formats: [i32; 5] = [130, 126, 129, 128, 124];
    assert(formats@ =~= spec_depth_format_candidates());
    formats
}

/// Picks the first candidate depth format whose optimal tiling supports depth
/// stencil attachments; `optimal_tiling_features[k]` are the features of the
/// `k`-th candidate.
pub fn find_depth_format(optimal_tiling_features: &[u32; 5]) -> (format: Option<i32>)
    ensures
        match format {
            Some(f) => exists|k: int| 0 <= k < 5 && spec_depth_format_candidates()[k] == f
                && spec_contains(optimal_tiling_features@[k], FORMAT_FEATURE_DEPTH_STENCIL_ATTACHMENT)
                && forall|j: int| 0 <= j < k ==> !spec_contains(#[trigger] optimal_tiling_features@[j], FORMAT_FEATURE_DEPTH_STENCIL_ATTACHMENT),
            None => forall|j: int| 0 <= j < 5 ==> !spec_contains(#[trigger] optimal_tiling_features@[j], FORMAT_FEATURE_DEPTH_STENCIL_ATTACHMENT),
        },
        format == spec_first_depth_format(optimal_tiling_features@),
{
    proof {
        lemma_depth_format_order();
    }
    let candidates = depth_format_candidates();
    for k in 0..5usize
        invariant
            candidates@ == spec_depth_format_candidates(),
            forall|j: int| 0 <= j < k ==> !spec_contains(#[trigger] optimal_tiling_features@[j], FORMAT_FEATURE_DEPTH_STENCIL_ATTACHMENT),
    {
        // the format must support depth stencil attachment for optimal tiling.
        if contains(optimal_tiling_features[k], FORMAT_FEATURE_DEPTH_STENCIL_ATTACHMENT) {
            return Some(candidates[k]);
        }
    }
    None
}

/// The format that a device with depth-stencil support `features[k]` for the
/// `k`-th candidate gets: D32_SFLOAT_S8_UINT where it is supported, else
/// D32_SFLOAT, else D24_UNORM_S8_UINT, else D16_UNORM_S8_UINT, else D16_UNORM,
/// else none.
pub open spec fn spec_first_depth_format(features: Seq<u32>) -> Option<i32> {
    if spec_contains(features[0], FORMAT_FEATURE_DEPTH_STENCIL_ATTACHMENT) {
        Some(FORMAT_D32_SFLOAT_S8_UINT)
    } else if spec_contains(features[1], FORMAT_FEATURE_DEPTH_STENCIL_ATTACHMENT) {
        Some(FORMAT_D32_SFLOAT)
    } else if spec_contains(features[2], FORMAT_FEATURE_DEPTH_STENCIL_ATTACHMENT) {
        Some(FORMAT_D24_UNORM_S8_UINT)
    } else if spec_contains(features[3], FORMAT_FEATURE_DEPTH_STENCIL_ATTACHMENT) {
        Some(FORMAT_D16_UNORM_S8_UINT)
    } else if spec_contains(features[4], FORMAT_FEATURE_DEPTH_STENCIL_ATTACHMENT) {
        Some(FORMAT_D16_UNORM)
    } else {
        None
    }
}

/// The depth formats are tried from the highest precision down: first the
/// packed 32-bit float depth with stencil, then 32-bit float depth, 24-bit
/// depth with stencil, 16-bit depth with stencil, and last 16-bit depth.
pub proof fn lemma_depth_format_order()
    ensures
        spec_depth_format_candidates() == seq![
            FORMAT_D32_SFLOAT_S8_UINT,
            FORMAT_D32_SFLOAT,
            FORMAT_D24_UNORM_S8_UINT,
            FORMAT_D16_UNORM_S8_UINT,
            FORMAT_D16_UNORM,
        ],
{
    assert(spec_depth_format_candidates() =~= seq![
        FORMAT_D32_SFLOAT_S8_UINT,
        FORMAT_D32_SFLOAT,
        FORMAT_D24_UNORM_S8_UINT,
        FORMAT_D16_UNORM_S8_UINT,
        FORMAT_D16_UNORM,
    ]);
}

/// A device that supports depth-stencil attachments with the highest
/// precision candidate gets that format, D32_SFLOAT_S8_UINT, whatever else it
/// supports; one that supports none of the candidates gets none.
pub proof fn lemma_depth_format_preference(features: Seq<u32>)
    requires
        features.len() == 5,
    ensures
        spec_contains(features[0], FORMAT_FEATURE_DEPTH_STENCIL_ATTACHMENT)
            ==> spec_first_depth_format(features) == Some(FORMAT_D32_SFLOAT_S8_UINT),
        (forall|k: int| 0 <= k < 5 ==> !spec_contains(#[trigger] features[k], FORMAT_FEATURE_DEPTH_STENCIL_ATTACHMENT))
            ==> spec_first_depth_format(features) is None,
{
}

/// A readable name of a `vk::PhysicalDeviceType` raw value.
pub fn device_type_name(device_type: i32) -> (name: &'static str)
    ensures
        name@ == if device_type == 4 {
            "CPU"@
        } else if device_type == 1 {
            "Integrated GPU"@
        } else if device_type == 2 {
            "Discrete GPU"@
        } else if device_type == 3 {
            "Virtual GPU"@
        } else {
            "Unknown"@
        },
{
    if device_type == 4 {
        "CPU"
    } else if device_type == 1 {
        "Integrated GPU"
    } else if device_type == 2 {
        "Discrete GPU"
    } else if device_type == 3 {
        "Virtual GPU"
    } else {
        "Unknown"
    }
}

} // verus!
