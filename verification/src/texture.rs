use vstd::prelude::*;

use crate::ci::buffer::BUFFER_USAGE_TRANSFER_SRC;
use crate::ci::image::{
    ComponentMapping, ImageBarrierCI, ImageCI, ImageInfo, ImageSubresourceRange, ImageViewCI, SamplerCI,
    COMPONENT_SWIZZLE_A, COMPONENT_SWIZZLE_B, COMPONENT_SWIZZLE_G, COMPONENT_SWIZZLE_R, FILTER_LINEAR,
    IMAGE_ASPECT_COLOR, IMAGE_LAYOUT_SHADER_READ_ONLY_OPTIMAL, IMAGE_LAYOUT_TRANSFER_DST_OPTIMAL, IMAGE_LAYOUT_UNDEFINED, IMAGE_TILING_OPTIMAL, IMAGE_TYPE_2D, IMAGE_VIEW_TYPE_2D,
    QUEUE_FAMILY_IGNORED, SAMPLER_ADDRESS_MODE_REPEAT, SAMPLER_MIPMAP_MODE_LINEAR, SAMPLE_COUNT_1,
};
use crate::ci::vma::{
    spec_buffer_request, BufferRequest, MemoryUsage, VmaAllocationCI, MEMORY_PROPERTY_DEVICE_LOCAL,
    MEMORY_PROPERTY_HOST_COHERENT, MEMORY_PROPERTY_HOST_VISIBLE,
};
use crate::ci::buffer::BufferCI;

verus! {

/// One mip level of a texture: its extent and its size in bytes.
#[derive(Debug, Clone, Copy, PartialEq, Eq, Structural)]
pub struct MipLevel {
    pub width: u32,
    pub height: u32,
    pub size: u64,
}

/// Where the data of one mip level starts in the staging buffer, and which
/// level of the image it is copied to.
#[derive(Debug, Clone, Copy, PartialEq, Eq, Structural)]
pub struct MipCopyRegion {
    pub buffer_offset: u64,
    pub mip_level: u32,
    pub width: u32,
    pub height: u32,
}

/// The bytes of the levels before level `i`, where the levels are stored back to back.
pub open spec fn spec_level_offset(levels: Seq<MipLevel>, i: int) -> int
    decreases i,
{
    if i <= 0 {
        0
    } else {
        spec_level_offset(levels, i - 1) + levels[i - 1].size
    }
}

/// The copy of each mip level from a staging buffer that holds the levels
/// back to back, in order, to the image's level of the same number.
pub fn mip_copy_regions(levels: &Vec<MipLevel>) -> (regions: Vec<MipCopyRegion>)
    requires
        spec_level_offset(levels@, levels@.len() as int) <= u64::MAX,
    ensures
        regions@.len() == levels@.len(),
        forall|i: int| 0 <= i < levels@.len() ==> #[trigger] regions@[i] == (MipCopyRegion {
            buffer_offset: spec_level_offset(levels@, i) as u64,
            mip_level: i as u32,
            width: levels@[i].width,
            height: levels@[i].height,
        }),
{
    let mut regions: Vec<MipCopyRegion> = Vec::new();
    let mut staging_offset: u64 = 0;
    let n = levels.len();
    for i in 0..n
        invariant
            n == levels@.len(),
            spec_level_offset(levels@, n as int) <= u64::MAX,
            regions@.len() == i,
            staging_offset == spec_level_offset(levels@, i as int),
            forall|k: int| 0 <= k < i ==> #[trigger] regions@[k] == (MipCopyRegion {
                buffer_offset: spec_level_offset(levels@, k) as u64,
                mip_level: k as u32,
                width: levels@[k].width,
                height: levels@[k].height,
            }),
    {
        let level = levels[i];
        regions.push(MipCopyRegion {
            buffer_offset: staging_offset,
            mip_level: #[verifier::truncate] (i as u32),
            width: level.width,
            height: level.height,
        });
        proof {
            lemma_level_offset_monotonic(levels@, i as int + 1, n as int);
        }
        staging_offset = staging_offset + level.size;
    }
    regions
}

/// The offsets of the levels grow with the level number.
pub proof fn lemma_level_offset_monotonic(levels: Seq<MipLevel>, i: int, j: int)
    requires
        0 <= i <= j <= levels.len(),
    ensures
        spec_level_offset(levels, i) <= spec_level_offset(levels, j),
    decreases j - i,
{
    if i < j {
        lemma_level_offset_monotonic(levels, i, j - 1);
    }
}

/// The regions of two different levels never overlap in the staging buffer:
/// each level's data ends where the next one's starts.
pub proof fn lemma_mip_regions_disjoint(levels: Seq<MipLevel>, i: int, j: int)
    requires
        0 <= i < j <= levels.len(),
    ensures
        spec_level_offset(levels, i) + levels[i].size <= spec_level_offset(levels, j),
{
    lemma_level_offset_monotonic(levels, i + 1, j);
}

pub const IMAGE_USAGE_TRANSFER_DST: u32 = 0b10;
pub const IMAGE_USAGE_SAMPLED: u32 = 0b100;
pub const ACCESS_SHADER_READ: u32 = 0b10_0000;
pub const ACCESS_TRANSFER_WRITE: u32 = 0b1_0000_0000_0000;
pub const COMPARE_OP_NEVER: i32 = 0;
pub const BORDER_COLOR_FLOAT_OPAQUE_WHITE: i32 = 4;

/// The colour of all `levels` mip levels of the one layer of an image.
pub open spec fn spec_all_levels(levels: u32) -> ImageSubresourceRange {
    ImageSubresourceRange { aspect_mask: IMAGE_ASPECT_COLOR, base_mip_level: 0, level_count: levels, base_array_layer: 0, layer_count: 1 }
}

/// The image of a 2D texture of `width` by `height` texels with `levels`
/// mip levels: one layer, one sample, optimal tiling, written by transfers and
/// sampled by shaders; and the host-visible staging buffer of `size` bytes
/// that its data is first written to.
pub fn texture_2d_cis(format: i32, width: u32, height: u32, levels: u32, size: u64) -> (cis: (ImageCI, VmaAllocationCI, BufferRequest))
    requires
        width > 0 && height > 0,
        levels > 0,
        size > 0,
    ensures
        cis.0.info == (ImageInfo {
            image_type: IMAGE_TYPE_2D,
            format,
            extent: crate::ci::image::Extent3D { width, height, depth: 1 },
            mip_levels: levels,
            array_layers: 1,
            samples: SAMPLE_COUNT_1,
            tiling: IMAGE_TILING_OPTIMAL,
            initial_layout: IMAGE_LAYOUT_UNDEFINED,
            usage: IMAGE_USAGE_TRANSFER_DST | IMAGE_USAGE_SAMPLED,
            ..ImageCI::spec_default_ci()
        }),
        cis.0.queue_families@ == Seq::<u32>::empty(),
        cis.1 == (VmaAllocationCI {
            usage: MemoryUsage::GpuOnly,
            required_flags: MEMORY_PROPERTY_DEVICE_LOCAL,
            ..VmaAllocationCI::spec_default_ci()
        }),
        spec_buffer_request(
            cis.2,
            size,
            BUFFER_USAGE_TRANSFER_SRC,
            MemoryUsage::CpuOnly,
            MEMORY_PROPERTY_HOST_VISIBLE | MEMORY_PROPERTY_HOST_COHERENT,
        ),
{
    let image = ImageCI::new_2d(format, width, height).mip_levels(levels).array_layers(1).samples(SAMPLE_COUNT_1).tiling(
        IMAGE_TILING_OPTIMAL,
    ).initial_layout(IMAGE_LAYOUT_UNDEFINED).usages(IMAGE_USAGE_TRANSFER_DST | IMAGE_USAGE_SAMPLED);
    let allocation = VmaAllocationCI::new(MemoryUsage::GpuOnly, MEMORY_PROPERTY_DEVICE_LOCAL);
    let staging = BufferRequest {
        buffer: BufferCI::new(size).usage(BUFFER_USAGE_TRANSFER_SRC),
        allocation: VmaAllocationCI::new(MemoryUsage::CpuOnly, MEMORY_PROPERTY_HOST_VISIBLE | MEMORY_PROPERTY_HOST_COHERENT),
    };
    (image, allocation, staging)
}

/// The layout transitions around the upload of all `levels` mip levels of
/// `image`: first from nothing to a transfer target, then, once the levels
/// are copied, to a shader-read image.
pub fn texture_upload_barriers(image: u64, levels: u32) -> (barriers: (ImageBarrierCI, ImageBarrierCI))
    ensures
        barriers.0 == (ImageBarrierCI {
            src_access_mask: 0,
            dst_access_mask: ACCESS_TRANSFER_WRITE,
            old_layout: IMAGE_LAYOUT_UNDEFINED,
            new_layout: IMAGE_LAYOUT_TRANSFER_DST_OPTIMAL,
            src_queue_family_index: QUEUE_FAMILY_IGNORED,
            dst_queue_family_index: QUEUE_FAMILY_IGNORED,
            image,
            subresource_range: spec_all_levels(levels),
        }),
        barriers.1 == (ImageBarrierCI {
            src_access_mask: ACCESS_TRANSFER_WRITE,
            dst_access_mask: ACCESS_SHADER_READ,
            old_layout: IMAGE_LAYOUT_TRANSFER_DST_OPTIMAL,
            new_layout: IMAGE_LAYOUT_SHADER_READ_ONLY_OPTIMAL,
            ..barriers.0
        }),
{
    let range = ImageSubresourceRange {
        aspect_mask: IMAGE_ASPECT_COLOR,
        base_mip_level: 0,
        level_count: levels,
        base_array_layer: 0,
        layer_count: 1,
    };
    let first = ImageBarrierCI::new(image, range).access_mask(0, ACCESS_TRANSFER_WRITE).layout(
        IMAGE_LAYOUT_UNDEFINED,
        IMAGE_LAYOUT_TRANSFER_DST_OPTIMAL,
    );
    let second = ImageBarrierCI::new(image, range).access_mask(ACCESS_TRANSFER_WRITE, ACCESS_SHADER_READ).layout(
        IMAGE_LAYOUT_TRANSFER_DST_OPTIMAL,
        IMAGE_LAYOUT_SHADER_READ_ONLY_OPTIMAL,
    );
    (first, second)
}

/// The sampler of a texture: linear filtering and mipmaps, repeating
/// addresses, levels of detail from 0 up to `max_lod_bits` (the bits of a
/// 4-byte float, the number of mip levels), a comparison that never passes,
/// an opaque white border, and anisotropic filtering up to `max_anisotropy`
/// where the device enables it.
pub fn texture_sampler_ci(max_lod_bits: u32, max_anisotropy: Option<u32>) -> (ci: SamplerCI)
    ensures
        ci == (SamplerCI {
            mag_filter: FILTER_LINEAR,
            min_filter: FILTER_LINEAR,
            mipmap_mode: SAMPLER_MIPMAP_MODE_LINEAR,
            address_mode_u: SAMPLER_ADDRESS_MODE_REPEAT,
            address_mode_v: SAMPLER_ADDRESS_MODE_REPEAT,
            address_mode_w: SAMPLER_ADDRESS_MODE_REPEAT,
            mip_lod_bias: 0,
            min_lod: 0,
            max_lod: max_lod_bits,
            compare_enable: true,
            compare_op: COMPARE_OP_NEVER,
            border_color: BORDER_COLOR_FLOAT_OPAQUE_WHITE,
            anisotropy_enable: max_anisotropy is Some,
            max_anisotropy: match max_anisotropy {
                Some(m) => m,
                None => SamplerCI::spec_default_ci().max_anisotropy,
            },
            ..SamplerCI::spec_default_ci()
        }),
{
    SamplerCI::new().filter(FILTER_LINEAR, FILTER_LINEAR).mipmap(SAMPLER_MIPMAP_MODE_LINEAR).address(
        SAMPLER_ADDRESS_MODE_REPEAT,
        SAMPLER_ADDRESS_MODE_REPEAT,
        SAMPLER_ADDRESS_MODE_REPEAT,
    ).lod(0, 0, max_lod_bits).compare_op(Some(COMPARE_OP_NEVER)).border_color(BORDER_COLOR_FLOAT_OPAQUE_WHITE).anisotropy(
        max_anisotropy,
    )
}

/// The 2D view of all `levels` mip levels of `image`, its channels in place.
pub fn texture_view_ci(image: u64, format: i32, levels: u32) -> (ci: ImageViewCI)
    ensures
        ci == (ImageViewCI {
            image,
            format,
            view_type: IMAGE_VIEW_TYPE_2D,
            components: ComponentMapping {
                r: COMPONENT_SWIZZLE_R,
                g: COMPONENT_SWIZZLE_G,
                b: COMPONENT_SWIZZLE_B,
                a: COMPONENT_SWIZZLE_A,
            },
            subresource_range: spec_all_levels(levels),
            ..ImageViewCI::spec_default_ci()
        }),
{
    ImageViewCI::new(image, IMAGE_VIEW_TYPE_2D, format).components(
        ComponentMapping { r: COMPONENT_SWIZZLE_R, g: COMPONENT_SWIZZLE_G, b: COMPONENT_SWIZZLE_B, a: COMPONENT_SWIZZLE_A },
    ).sub_range(
        ImageSubresourceRange {
            aspect_mask: IMAGE_ASPECT_COLOR,
            base_mip_level: 0,
            level_count: levels,
            base_array_layer: 0,
            layer_count: 1,
        },
    )
}

} // verus!
