use vstd::prelude::*;

use crate::seqs::{first_from, first_value, lemma_first_from_is, lemma_first_from_none, lemma_first_from_skip};
use crate::ci::image::{
    ComponentMapping, ImageSubresourceRange, ImageViewCI, COMPONENT_SWIZZLE_A, COMPONENT_SWIZZLE_B,
    COMPONENT_SWIZZLE_G, COMPONENT_SWIZZLE_R, IMAGE_ASPECT_COLOR, IMAGE_VIEW_TYPE_2D,
};
use crate::vkflags::{contains, spec_contains};

verus! {

/// A two dimensional size in pixels (`vk::Extent2D`).
#[derive(Debug, Clone, Copy, PartialEq, Eq, Structural)]
pub struct Extent2D {
    pub width: u32,
    pub height: u32,
}

/// What a surface supports, as `vkGetPhysicalDeviceSurfaceCapabilitiesKHR`
/// reports it (`vk::SurfaceCapabilitiesKHR`, masks as raw bits).
#[derive(Debug, Clone, Copy, PartialEq, Eq, Structural)]
pub struct SurfaceCapabilities {
    pub min_image_count: u32,
    pub max_image_count: u32,
    pub current_extent: Extent2D,
    pub min_image_extent: Extent2D,
    pub max_image_extent: Extent2D,
    pub max_image_array_layers: u32,
    pub supported_transforms: u32,
    pub current_transform: u32,
    pub supported_composite_alpha: u32,
    pub supported_usage_flags: u32,
}

/// A color format and color space pair supported by a surface (`vk::SurfaceFormatKHR`).
#[derive(Debug, Clone, Copy, PartialEq, Eq, Structural)]
pub struct SurfaceFormat {
    /// `vk::Format` as its raw value.
    pub format: i32,
    /// `vk::ColorSpaceKHR` as its raw value.
    pub color_space: i32,
}

/// How the swapchain should be set up.
#[derive(Debug, Clone, Copy, PartialEq, Eq, Structural)]
pub struct SwapchainConfig {
    /// wait for the vertical blank before presenting.
    pub present_vsync: bool,
    /// the image size to use when the surface lets the swapchain decide.
    pub dimension_preference: Extent2D,
    /// how long, in nanoseconds, acquiring an image may wait.
    pub image_acquire_time: u64,
}

/// The image parameters chosen for a new swapchain.
#[derive(Debug, Clone, Copy, PartialEq, Eq, Structural)]
pub struct SwapchainCapability {
    pub support_usage: u32,
    pub desired_image_count: u32,
    pub swapchain_extent: Extent2D,
    pub pre_transform: u32,
    pub composite_alpha: u32,
}

/// The format and color space chosen for the presentable images.
#[derive(Debug, Clone, Copy, PartialEq, Eq, Structural)]
pub struct SwapchainFormat {
    pub color_format: i32,
    pub color_space: i32,
}

/// Why acquiring or presenting an image did not go as planned.
#[derive(Debug, Clone, Copy, PartialEq, Eq, Structural)]
pub enum SwapchainSyncError {
    /// No image became available within the time allowed.
    TimeOut,
    /// Swapchain does not match the surface properties exactly.
    SubOptimal,
    /// Surface has changed and is not compatible with the swapchain.
    SurfaceOutDate,
    /// Get unknown error when acquiring image.
    Unknown,
}

/// `vk::ImageUsageFlags::TRANSFER_SRC`.
pub const IMAGE_USAGE_TRANSFER_SRC: u32 = 0b1;

/// `vk::ImageUsageFlags::TRANSFER_DST`.
pub const IMAGE_USAGE_TRANSFER_DST: u32 = 0b10;

/// `vk::ImageUsageFlags::COLOR_ATTACHMENT`.
pub const IMAGE_USAGE_COLOR_ATTACHMENT: u32 = 0b10000;

/// `vk::SurfaceTransformFlagsKHR::IDENTITY`.
pub const SURFACE_TRANSFORM_IDENTITY: u32 = 0b1;

/// `vk::CompositeAlphaFlagsKHR::OPAQUE`.
pub const COMPOSITE_ALPHA_OPAQUE: u32 = 0b1;

/// `vk::CompositeAlphaFlagsKHR::PRE_MULTIPLIED`.
pub const COMPOSITE_ALPHA_PRE_MULTIPLIED: u32 = 0b10;

/// `vk::CompositeAlphaFlagsKHR::POST_MULTIPLIED`.
pub const COMPOSITE_ALPHA_POST_MULTIPLIED: u32 = 0b100;

/// `vk::CompositeAlphaFlagsKHR::INHERIT`.
pub const COMPOSITE_ALPHA_INHERIT: u32 = 0b1000;

/// `vk::PresentModeKHR::IMMEDIATE`.
pub const PRESENT_MODE_IMMEDIATE: i32 = 0;

/// `vk::PresentModeKHR::MAILBOX`.
pub const PRESENT_MODE_MAILBOX: i32 = 1;

/// `vk::PresentModeKHR::FIFO`.
pub const PRESENT_MODE_FIFO: i32 = 2;

/// `vk::Format::UNDEFINED`.
pub const FORMAT_UNDEFINED: i32 = 0;

/// `vk::Format::B8G8R8A8_UNORM`.
pub const FORMAT_B8G8R8A8_UNORM: i32 = 44;

/// `vk::Result::TIMEOUT`.
pub const RESULT_TIMEOUT: i32 = 2;

/// `vk::Result::ERROR_OUT_OF_DATE_KHR`.
pub const RESULT_ERROR_OUT_OF_DATE: i32 = -1000001004;

/// The width or height that tells the swapchain to pick the surface size itself.
pub const SPECIAL_EXTEND: u32 = 0xFFFF_FFFF;

/// `v` clamped into `lo ..= hi`, the way `min(max(v, lo), hi)` does it.
pub open spec fn spec_clamp(v: u32, lo: u32, hi: u32) -> u32 {
    let low_bounded = if v >= lo {
        v
    } else {
        lo
    };
    if low_bounded <= hi {
        low_bounded
    } else {
        hi
    }
}

/// The usage of the swapchain images: always a color attachment, and a
/// transfer source or destination too when the surface supports it.
pub open spec fn spec_swapchain_usage(supported: u32) -> u32 {
    let with_src = if spec_contains(supported, IMAGE_USAGE_TRANSFER_SRC) {
        IMAGE_USAGE_COLOR_ATTACHMENT | IMAGE_USAGE_TRANSFER_SRC
    } else {
        IMAGE_USAGE_COLOR_ATTACHMENT
    };
    if spec_contains(supported, IMAGE_USAGE_TRANSFER_DST) {
        with_src | IMAGE_USAGE_TRANSFER_DST
    } else {
        with_src
    }
}

/// The swapchain size: the surface size when it is defined, otherwise the
/// preferred size clamped into the range the surface allows.
pub open spec fn spec_swapchain_extent(caps: SurfaceCapabilities, preference: Extent2D) -> Extent2D {
    if caps.current_extent.width == SPECIAL_EXTEND && caps.current_extent.height == SPECIAL_EXTEND {
        Extent2D {
            width: spec_clamp(
                preference.width,
                caps.min_image_extent.width,
                caps.max_image_extent.width,
            ),
            height: spec_clamp(
                preference.height,
                caps.min_image_extent.height,
                caps.max_image_extent.height,
            ),
        }
    } else {
        caps.current_extent
    }
}

/// One image more than the minimum, unless that exceeds a nonzero maximum.
pub open spec fn spec_swapchain_image_count(caps: SurfaceCapabilities) -> u32 {
    let wanted = (caps.min_image_count + 1) as u32;
    if caps.max_image_count > 0 && wanted > caps.max_image_count {
        caps.max_image_count
    } else {
        wanted
    }
}

/// The candidate composite alpha modes, in order of preference.
pub open spec fn spec_composite_alpha_candidates() -> Seq<u32> {
    seq![
        COMPOSITE_ALPHA_OPAQUE,
        COMPOSITE_ALPHA_PRE_MULTIPLIED,
        COMPOSITE_ALPHA_POST_MULTIPLIED,
        COMPOSITE_ALPHA_INHERIT,
    ]
}

/// The modes contained in the supported mask.
pub open spec fn spec_supported_by(supported: u32) -> spec_fn(u32) -> bool {
    |a: u32| spec_contains(supported, a)
}

/// The first candidate composite alpha mode the surface supports, or opaque.
pub open spec fn spec_composite_alpha(supported: u32) -> u32 {
    match first_value(spec_composite_alpha_candidates(), spec_supported_by(supported)) {
        Some(a) => a,
        None => COMPOSITE_ALPHA_OPAQUE,
    }
}

/// The image parameters of a new swapchain for a surface with capabilities `caps`.
pub open spec fn spec_swapchain_capability(caps: SurfaceCapabilities, config: SwapchainConfig) -> SwapchainCapability {
    SwapchainCapability {
        support_usage: spec_swapchain_usage(caps.supported_usage_flags),
        desired_image_count: spec_swapchain_image_count(caps),
        swapchain_extent: spec_swapchain_extent(caps, config.dimension_preference),
        pre_transform: if spec_contains(caps.supported_transforms, SURFACE_TRANSFORM_IDENTITY) {
            SURFACE_TRANSFORM_IDENTITY
        } else {
            caps.current_transform
        },
        composite_alpha: spec_composite_alpha(caps.supported_composite_alpha),
    }
}

/// Chooses the image parameters of a new swapchain from what the surface supports.
pub fn swapchain_capability(surface_caps: &SurfaceCapabilities, config: &SwapchainConfig) -> (capability: SwapchainCapability)
    requires
        surface_caps.min_image_count < u32::MAX,
    ensures
        capability == spec_swapchain_capability(*surface_caps, *config),
        surface_caps.max_image_count == 0 || surface_caps.min_image_count + 1 <= surface_caps.max_image_count
            ==> capability.desired_image_count == surface_caps.min_image_count + 1,
        surface_caps.max_image_count != 0 && surface_caps.min_image_count + 1 > surface_caps.max_image_count
            ==> capability.desired_image_count == surface_caps.max_image_count,
        spec_contains(surface_caps.supported_transforms, SURFACE_TRANSFORM_IDENTITY)
            ==> capability.pre_transform == SURFACE_TRANSFORM_IDENTITY,
        !spec_contains(surface_caps.supported_transforms, SURFACE_TRANSFORM_IDENTITY)
            ==> capability.pre_transform == surface_caps.current_transform,
{
    // Determine the usage of swapchain images.
    let mut image_usage = IMAGE_USAGE_COLOR_ATTACHMENT;
    // Enable transfer source on swap chain images if supported
    if contains(surface_caps.supported_usage_flags, IMAGE_USAGE_TRANSFER_SRC) {
        image_usage = image_usage | IMAGE_USAGE_TRANSFER_SRC;
    }
    // Enable transfer destination on swap chain images if supported
    if contains(surface_caps.supported_usage_flags, IMAGE_USAGE_TRANSFER_DST) {
        image_usage = image_usage | IMAGE_USAGE_TRANSFER_DST;
    }

    // Determine the dimension of swapchain images.
    // If width and height equal the special value 0xFFFFFFFF, the size of the surface is set by the swapchain.
    let optimal_extent = if surface_caps.current_extent.width == SPECIAL_EXTEND
        && surface_caps.current_extent.height == SPECIAL_EXTEND {
        // the surface size is undefined: use the requested size, within the allowed range.
        Extent2D {
            width: clamp_u32(
                config.dimension_preference.width,
                surface_caps.min_image_extent.width,
                surface_caps.max_image_extent.width,
            ),
            height: clamp_u32(
                config.dimension_preference.height,
                surface_caps.min_image_extent.height,
                surface_caps.max_image_extent.height,
            ),
        }
    } else {
        // If the surface size is defined, the swap chain size must match.
        surface_caps.current_extent
    };

    // Determine the number of images.
    let mut optimal_image_count = surface_caps.min_image_count + 1;
    if surface_caps.max_image_count > 0 && optimal_image_count > surface_caps.max_image_count {
        optimal_image_count = surface_caps.max_image_count;
    }

    // We prefer a non-rotated transform.
    let surface_transform = if contains(surface_caps.supported_transforms, SURFACE_TRANSFORM_IDENTITY) {
        SURFACE_TRANSFORM_IDENTITY
    } else {
        surface_caps.current_transform
    };

    // Select the first composite alpha format available.
    let candidates: [u32; 4] = [
        COMPOSITE_ALPHA_OPAQUE,
        COMPOSITE_ALPHA_PRE_MULTIPLIED,
        COMPOSITE_ALPHA_POST_MULTIPLIED,
        COMPOSITE_ALPHA_INHERIT,
    ];
    let ghost pred = spec_supported_by(surface_caps.supported_composite_alpha);
    let ghost cands = spec_composite_alpha_candidates();
    assert(candidates@ =~= cands);
    let mut composite_alpha_flag = COMPOSITE_ALPHA_OPAQUE;
    let mut found = false;
    let mut i: usize = 0;
    while i < 4
        invariant_except_break
            !found,
            composite_alpha_flag == COMPOSITE_ALPHA_OPAQUE,
            first_from(cands, pred, 0) == first_from(cands, pred, i as int),
        invariant
            i <= 4,
            candidates@ == cands,
            cands.len() == 4,
            pred == spec_supported_by(surface_caps.supported_composite_alpha),
        ensures
            found ==> first_value(cands, pred) == Some(composite_alpha_flag),
            !found ==> first_value(cands, pred) is None && composite_alpha_flag == COMPOSITE_ALPHA_OPAQUE,
        decreases 4 - i,
    {
        if contains(surface_caps.supported_composite_alpha, candidates[i]) {
            proof {
                assert(pred(cands[i as int]));
                assert(first_from(cands, pred, i as int) == Some(i as int));
            }
            composite_alpha_flag = candidates[i];
            assert(first_from(cands, pred, 0) == Some(i as int));
            assert(cands[i as int] == composite_alpha_flag);
            assert(first_value(cands, pred) == Some(composite_alpha_flag));
            found = true;
            break;
        }
        proof {
            lemma_first_from_skip(cands, pred, i as int, i + 1);
        }
        i = i + 1;
    }
    proof {
        if !found {
            lemma_first_from_none(cands, pred, 4);
        }
    }

    assert(image_usage == spec_swapchain_usage(surface_caps.supported_usage_flags));
    assert(optimal_extent == spec_swapchain_extent(*surface_caps, config.dimension_preference));
    assert(optimal_image_count == spec_swapchain_image_count(*surface_caps));
    assert(composite_alpha_flag == spec_composite_alpha(surface_caps.supported_composite_alpha));
    SwapchainCapability {
        support_usage: image_usage,
        desired_image_count: optimal_image_count,
        swapchain_extent: optimal_extent,
        pre_transform: surface_transform,
        composite_alpha: composite_alpha_flag,
    }
}

/// `min(max(v, lo), hi)`.
fn clamp_u32(v: u32, lo: u32, hi: u32) -> (r: u32)
    ensures
        r == spec_clamp(v, lo, hi),
{
    let low_bounded = if v >= lo {
        v
    } else {
        lo
    };
    if low_bounded <= hi {
        low_bounded
    } else {
        hi
    }
}

/// Present modes with low latency that do not wait for the vertical blank.
pub open spec fn spec_is_low_latency() -> spec_fn(i32) -> bool {
    |mode: i32| mode == PRESENT_MODE_MAILBOX || mode == PRESENT_MODE_IMMEDIATE
}

/// FIFO when v-sync is asked for; otherwise the first mailbox or immediate
/// mode the surface offers, or FIFO, which every surface supports.
pub open spec fn spec_present_mode(present_vsync: bool, available_modes: Seq<i32>) -> i32 {
    if present_vsync {
        PRESENT_MODE_FIFO
    } else {
        match first_value(available_modes, spec_is_low_latency()) {
            Some(mode) => mode,
            None => PRESENT_MODE_FIFO,
        }
    }
}

/// Chooses the present mode of the swapchain among those the surface offers.
pub fn optimal_present_mode(config: &SwapchainConfig, available_modes: &Vec<i32>) -> (mode: i32)
    ensures
        mode == spec_present_mode(config.present_vsync, available_modes@),
{
    if config.present_vsync {
        return PRESENT_MODE_FIFO;
    }
    let ghost pred = spec_is_low_latency();
    let n = available_modes.len();
    let mut i: usize = 0;
    while i < n
        invariant
            n == available_modes@.len(),
            i <= n,
            !config.present_vsync,
            pred == spec_is_low_latency(),
            first_from(available_modes@, pred, 0) == first_from(available_modes@, pred, i as int),
        decreases n - i,
    {
        let present_mode = available_modes[i];
        if present_mode == PRESENT_MODE_MAILBOX || present_mode == PRESENT_MODE_IMMEDIATE {
            assert(pred(available_modes@[i as int]));
            assert(first_from(available_modes@, pred, i as int) == Some(i as int));
            assert(first_value(available_modes@, pred) == Some(present_mode));
            return present_mode;
        }
        proof {
            lemma_first_from_skip(available_modes@, pred, i as int, i + 1);
        }
        i = i + 1;
    }
    proof {
        lemma_first_from_none(available_modes@, pred, n as int);
    }
    PRESENT_MODE_FIFO
}

/// Surface formats that are `B8G8R8A8_UNORM`.
pub open spec fn spec_is_bgra8() -> spec_fn(SurfaceFormat) -> bool {
    |f: SurfaceFormat| f.format == FORMAT_B8G8R8A8_UNORM
}

/// `B8G8R8A8_UNORM` when the surface has no preference (a single `UNDEFINED`
/// entry) or offers it; otherwise the first format offered.
pub open spec fn spec_swapchain_format(formats: Seq<SurfaceFormat>) -> SwapchainFormat {
    if formats.len() == 1 && formats[0].format == FORMAT_UNDEFINED {
        SwapchainFormat { color_format: FORMAT_B8G8R8A8_UNORM, color_space: formats[0].color_space }
    } else {
        match first_value(formats, spec_is_bgra8()) {
            Some(f) => SwapchainFormat { color_format: f.format, color_space: f.color_space },
            None => SwapchainFormat {
                color_format: formats[0].format,
                color_space: formats[0].color_space,
            },
        }
    }
}

/// Chooses the color format and color space of the presentable images.
pub fn optimal_format(support_formats: &Vec<SurfaceFormat>) -> (format: SwapchainFormat)
    requires
        support_formats.len() > 0,
    ensures
        format == spec_swapchain_format(support_formats@),
        support_formats@.len() == 1 && support_formats@[0].format == FORMAT_UNDEFINED ==> format
            == (SwapchainFormat { color_format: FORMAT_B8G8R8A8_UNORM, color_space: support_formats@[0].color_space }),
        !(support_formats@.len() == 1 && support_formats@[0].format == FORMAT_UNDEFINED) && (forall|i: int|
            0 <= i < support_formats@.len() ==> #[trigger] support_formats@[i].format != FORMAT_B8G8R8A8_UNORM)
            ==> format == (SwapchainFormat {
                color_format: support_formats@[0].format,
                color_space: support_formats@[0].color_space,
            }),
        (exists|i: int| 0 <= i < support_formats@.len() && #[trigger] support_formats@[i].format == FORMAT_B8G8R8A8_UNORM)
            ==> format.color_format == FORMAT_B8G8R8A8_UNORM && exists|i: int|
            0 <= i < support_formats@.len() && #[trigger] support_formats@[i].format == FORMAT_B8G8R8A8_UNORM
                && format.color_space == support_formats@[i].color_space && forall|j: int|
                0 <= j < i ==> #[trigger] support_formats@[j].format != FORMAT_B8G8R8A8_UNORM,
{
    proof {
        lemma_swapchain_format_choice(support_formats@);
    }
    // A single UNDEFINED entry means that there is no preferred format.
    if support_formats.len() == 1 && support_formats[0].format == FORMAT_UNDEFINED {
        return SwapchainFormat {
            color_format: FORMAT_B8G8R8A8_UNORM,
            color_space: support_formats[0].color_space,
        };
    }
    let ghost pred = spec_is_bgra8();
    let n = support_formats.len();
    let mut i: usize = 0;
    while i < n
        invariant
            n == support_formats@.len(),
            i <= n,
            !(support_formats@.len() == 1 && support_formats@[0].format == FORMAT_UNDEFINED),
            pred == spec_is_bgra8(),
            first_from(support_formats@, pred, 0) == first_from(support_formats@, pred, i as int),
        decreases n - i,
    {
        let surface_format = support_formats[i];
        if surface_format.format == FORMAT_B8G8R8A8_UNORM {
            assert(pred(support_formats@[i as int]));
            assert(first_from(support_formats@, pred, i as int) == Some(i as int));
            let chosen = SwapchainFormat {
                color_format: surface_format.format,
                color_space: surface_format.color_space,
            };
            proof {
                lemma_swapchain_format_choice(support_formats@);
            }
            return chosen;
        }
        proof {
            lemma_first_from_skip(support_formats@, pred, i as int, i + 1);
        }
        i = i + 1;
    }
    proof {
        lemma_first_from_none(support_formats@, pred, n as int);
    }
    // B8G8R8A8_UNORM is not available: select the first available color format.
    SwapchainFormat {
        color_format: support_formats[0].format,
        color_space: support_formats[0].color_space,
    }
}

/// The surface format chosen: `B8G8R8A8_UNORM` in the colour space of the
/// sole entry when the surface has no preference (its one entry is
/// `UNDEFINED`); otherwise, where the surface offers `B8G8R8A8_UNORM`, that
/// format in the colour space of its first offer; and where it does not, the
/// first format offered, as it is offered.
pub proof fn lemma_swapchain_format_choice(formats: Seq<SurfaceFormat>)
    requires
        formats.len() > 0,
    ensures
        formats.len() == 1 && formats[0].format == FORMAT_UNDEFINED ==> spec_swapchain_format(formats)
            == (SwapchainFormat { color_format: FORMAT_B8G8R8A8_UNORM, color_space: formats[0].color_space }),
        !(formats.len() == 1 && formats[0].format == FORMAT_UNDEFINED) && (forall|i: int|
            0 <= i < formats.len() ==> #[trigger] formats[i].format != FORMAT_B8G8R8A8_UNORM)
            ==> spec_swapchain_format(formats) == (SwapchainFormat {
                color_format: formats[0].format,
                color_space: formats[0].color_space,
            }),
        (exists|i: int| 0 <= i < formats.len() && #[trigger] formats[i].format == FORMAT_B8G8R8A8_UNORM)
            ==> spec_swapchain_format(formats).color_format == FORMAT_B8G8R8A8_UNORM && exists|i: int|
            0 <= i < formats.len() && #[trigger] formats[i].format == FORMAT_B8G8R8A8_UNORM
                && spec_swapchain_format(formats).color_space == formats[i].color_space && forall|j: int|
                0 <= j < i ==> #[trigger] formats[j].format != FORMAT_B8G8R8A8_UNORM,
{
    let pred = spec_is_bgra8();
    crate::seqs::lemma_first_from_result(formats, pred, 0);
    match first_from(formats, pred, 0) {
        Some(k) => {
            assert(formats[k].format == FORMAT_B8G8R8A8_UNORM);
            assert forall|j: int| 0 <= j < k implies #[trigger] formats[j].format != FORMAT_B8G8R8A8_UNORM by {
                assert(!pred(formats[j]));
            }
        },
        None => {
            assert forall|i: int| 0 <= i < formats.len() implies #[trigger] formats[i].format
                != FORMAT_B8G8R8A8_UNORM by {
                assert(!pred(formats[i]));
            }
        },
    }
}

/// The outcome of acquiring the next image, given what `vkAcquireNextImageKHR`
/// returned: the image index and whether the swapchain is suboptimal, or the
/// error code.
pub open spec fn spec_acquire_outcome(result: Result<(u32, bool), i32>) -> Result<u32, SwapchainSyncError> {
    match result {
        Ok((image_index, is_sub_optimal)) => if is_sub_optimal {
            Err(SwapchainSyncError::SubOptimal)
        } else {
            Ok(image_index)
        },
        Err(code) => if code == RESULT_TIMEOUT {
            Err(SwapchainSyncError::TimeOut)
        } else if code == RESULT_ERROR_OUT_OF_DATE {
            Err(SwapchainSyncError::SurfaceOutDate)
        } else {
            Err(SwapchainSyncError::Unknown)
        },
    }
}

/// Interprets the result of `vkAcquireNextImageKHR`.
pub fn acquire_outcome(result: Result<(u32, bool), i32>) -> (res: Result<u32, SwapchainSyncError>)
    ensures
        res == spec_acquire_outcome(result),
{
    match result {
        Ok((image_index, is_sub_optimal)) => {
            if is_sub_optimal {
                Err(SwapchainSyncError::SubOptimal)
            } else {
                Ok(image_index)
            }
        },
        Err(code) => {
            if code == RESULT_TIMEOUT {
                Err(SwapchainSyncError::TimeOut)
            } else if code == RESULT_ERROR_OUT_OF_DATE {
                Err(SwapchainSyncError::SurfaceOutDate)
            } else {
                Err(SwapchainSyncError::Unknown)
            }
        },
    }
}

/// Interprets the result of `vkQueuePresentKHR`: whether the swapchain is
/// suboptimal, or the error code.
pub fn present_outcome(result: Result<bool, i32>) -> (res: Result<(), SwapchainSyncError>)
    ensures
        res == match result {
            Ok(is_sub_optimal) => if is_sub_optimal {
                Err(SwapchainSyncError::SubOptimal)
            } else {
                Ok(())
            },
            Err(_) => Err(SwapchainSyncError::Unknown),
        },
{
    match result {
        Ok(is_sub_optimal) => {
            if is_sub_optimal {
                Err(SwapchainSyncError::SubOptimal)
            } else {
                Ok(())
            }
        },
        Err(_) => Err(SwapchainSyncError::Unknown),
    }
}

/// The swapchain images are always usable as color attachments.
pub proof fn lemma_usage_has_color_attachment(supported: u32)
    ensures
        spec_contains(spec_swapchain_usage(supported), IMAGE_USAGE_COLOR_ATTACHMENT),
{
    assert((0b10000u32 | 0b1u32) & 0b10000u32 == 0b10000u32) by (bit_vector);
    assert(0b10000u32 & 0b10000u32 == 0b10000u32) by (bit_vector);
    assert(((0b10000u32 | 0b1u32) | 0b10u32) & 0b10000u32 == 0b10000u32) by (bit_vector);
    assert((0b10000u32 | 0b10u32) & 0b10000u32 == 0b10000u32) by (bit_vector);
}

/// When the surface leaves the size to the swapchain and its range is not
/// empty, the chosen size lies within that range.
pub proof fn lemma_extent_within_range(caps: SurfaceCapabilities, preference: Extent2D)
    requires
        caps.current_extent.width == SPECIAL_EXTEND,
        caps.current_extent.height == SPECIAL_EXTEND,
        caps.min_image_extent.width <= caps.max_image_extent.width,
        caps.min_image_extent.height <= caps.max_image_extent.height,
    ensures
        caps.min_image_extent.width <= spec_swapchain_extent(caps, preference).width
            <= caps.max_image_extent.width,
        caps.min_image_extent.height <= spec_swapchain_extent(caps, preference).height
            <= caps.max_image_extent.height,
{
}

/// The swapchain asks for one image more than the surface's minimum, so that
/// the application need not wait on the driver to acquire the next image;
/// only where the surface reports a maximum (nonzero) below that does it ask
/// for the maximum. So the count is `min(min_image_count + 1, max_image_count)`
/// for a nonzero maximum, and never falls below the minimum nor exceeds a
/// nonzero maximum that is at least the minimum.
pub proof fn lemma_image_count(caps: SurfaceCapabilities, config: SwapchainConfig)
    requires
        caps.min_image_count < u32::MAX,
    ensures
        caps.max_image_count == 0 || caps.min_image_count + 1 <= caps.max_image_count
            ==> spec_swapchain_capability(caps, config).desired_image_count == caps.min_image_count + 1,
        caps.max_image_count != 0 && caps.min_image_count + 1 > caps.max_image_count
            ==> spec_swapchain_capability(caps, config).desired_image_count == caps.max_image_count,
        caps.min_image_count <= caps.max_image_count || caps.max_image_count == 0
            ==> spec_swapchain_capability(caps, config).desired_image_count >= caps.min_image_count,
        caps.max_image_count != 0 ==> spec_swapchain_capability(caps, config).desired_image_count
            <= caps.max_image_count,
{
}

/// The chosen composite alpha mode is one the surface supports, whenever it supports any candidate.
pub proof fn lemma_composite_alpha_supported(supported: u32)
    requires
        exists|k: int| 0 <= k < 4 && spec_contains(supported, #[trigger] spec_composite_alpha_candidates()[k]),
    ensures
        spec_contains(supported, spec_composite_alpha(supported)),
{
    let cands = spec_composite_alpha_candidates();
    let pred = spec_supported_by(supported);
    crate::seqs::lemma_first_from_result(cands, pred, 0);
    let k = choose|k: int| 0 <= k < 4 && spec_contains(supported, #[trigger] cands[k]);
    assert(pred(cands[k]));
}

/// The composite alpha modes are tried in the order opaque, pre-multiplied,
/// post-multiplied, inherit; the first one the surface supports is chosen,
/// and opaque when it supports none of them.
pub proof fn lemma_composite_alpha_order(supported: u32)
    ensures
        spec_contains(supported, COMPOSITE_ALPHA_OPAQUE) ==> spec_composite_alpha(supported)
            == COMPOSITE_ALPHA_OPAQUE,
        !spec_contains(supported, COMPOSITE_ALPHA_OPAQUE) && spec_contains(supported, COMPOSITE_ALPHA_PRE_MULTIPLIED)
            ==> spec_composite_alpha(supported) == COMPOSITE_ALPHA_PRE_MULTIPLIED,
        !spec_contains(supported, COMPOSITE_ALPHA_OPAQUE) && !spec_contains(supported, COMPOSITE_ALPHA_PRE_MULTIPLIED)
            && spec_contains(supported, COMPOSITE_ALPHA_POST_MULTIPLIED) ==> spec_composite_alpha(supported)
            == COMPOSITE_ALPHA_POST_MULTIPLIED,
        !spec_contains(supported, COMPOSITE_ALPHA_OPAQUE) && !spec_contains(supported, COMPOSITE_ALPHA_PRE_MULTIPLIED)
            && !spec_contains(supported, COMPOSITE_ALPHA_POST_MULTIPLIED) && spec_contains(
            supported,
            COMPOSITE_ALPHA_INHERIT,
        ) ==> spec_composite_alpha(supported) == COMPOSITE_ALPHA_INHERIT,
        !spec_contains(supported, COMPOSITE_ALPHA_OPAQUE) && !spec_contains(supported, COMPOSITE_ALPHA_PRE_MULTIPLIED)
            && !spec_contains(supported, COMPOSITE_ALPHA_POST_MULTIPLIED) && !spec_contains(
            supported,
            COMPOSITE_ALPHA_INHERIT,
        ) ==> spec_composite_alpha(supported) == COMPOSITE_ALPHA_OPAQUE,
{
    reveal_with_fuel(first_from, 5);
    let cands = spec_composite_alpha_candidates();
    assert(cands[0] == COMPOSITE_ALPHA_OPAQUE);
    assert(cands[1] == COMPOSITE_ALPHA_PRE_MULTIPLIED);
    assert(cands[2] == COMPOSITE_ALPHA_POST_MULTIPLIED);
    assert(cands[3] == COMPOSITE_ALPHA_INHERIT);
}

/// The view of a presentable image of the swapchain: 2D, in the swapchain's
/// colour format, its channels in place, of the colour of its one level and layer.
pub fn swapchain_image_view_ci(image: u64, format: SwapchainFormat) -> (ci: ImageViewCI)
    ensures
        ci == (ImageViewCI {
            flags: 0,
            image,
            view_type: IMAGE_VIEW_TYPE_2D,
            format: format.color_format,
            components: ComponentMapping {
                r: COMPONENT_SWIZZLE_R,
                g: COMPONENT_SWIZZLE_G,
                b: COMPONENT_SWIZZLE_B,
                a: COMPONENT_SWIZZLE_A,
            },
            subresource_range: ImageSubresourceRange {
                aspect_mask: IMAGE_ASPECT_COLOR,
                base_mip_level: 0,
                level_count: 1,
                base_array_layer: 0,
                layer_count: 1,
            },
        }),
{
    ImageViewCI::new(image, IMAGE_VIEW_TYPE_2D, format.color_format).components(
        ComponentMapping { r: COMPONENT_SWIZZLE_R, g: COMPONENT_SWIZZLE_G, b: COMPONENT_SWIZZLE_B, a: COMPONENT_SWIZZLE_A },
    ).sub_range(
        ImageSubresourceRange {
            aspect_mask: IMAGE_ASPECT_COLOR,
            base_mip_level: 0,
            level_count: 1,
            base_array_layer: 0,
            layer_count: 1,
        },
    )
}

} // verus!
