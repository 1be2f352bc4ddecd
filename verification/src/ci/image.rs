use vstd::prelude::*;

verus! {

pub const IMAGE_TYPE_2D: i32 = 1;
pub const FORMAT_UNDEFINED: i32 = 0;
pub const SAMPLE_COUNT_1: u32 = 0b1;
pub const IMAGE_TILING_OPTIMAL: i32 = 0;
pub const SHARING_MODE_EXCLUSIVE: i32 = 0;
pub const SHARING_MODE_CONCURRENT: i32 = 1;
pub const IMAGE_LAYOUT_UNDEFINED: i32 = 0;
pub const IMAGE_LAYOUT_SHADER_READ_ONLY_OPTIMAL: i32 = 5;
pub const IMAGE_LAYOUT_TRANSFER_DST_OPTIMAL: i32 = 7;
pub const IMAGE_VIEW_TYPE_2D: i32 = 1;
pub const COMPONENT_SWIZZLE_R: i32 = 3;
pub const COMPONENT_SWIZZLE_G: i32 = 4;
pub const COMPONENT_SWIZZLE_B: i32 = 5;
pub const COMPONENT_SWIZZLE_A: i32 = 6;
pub const IMAGE_ASPECT_COLOR: u32 = 0b1;
pub const QUEUE_FAMILY_IGNORED: u32 = 0xFFFF_FFFF;
pub const FILTER_LINEAR: i32 = 1;
pub const SAMPLER_MIPMAP_MODE_LINEAR: i32 = 1;
pub const SAMPLER_ADDRESS_MODE_REPEAT: i32 = 0;
pub const COMPARE_OP_ALWAYS: i32 = 7;
pub const BORDER_COLOR_INT_OPAQUE_BLACK: i32 = 3;
/// The bits of the 4-byte float `1.0`.
pub const FLOAT_ONE_BITS: u32 = 0x3f80_0000;
/// The bits of the 4-byte float `0.0`.
pub const FLOAT_ZERO_BITS: u32 = 0;

/// The size of an image in texels.
#[derive(Debug, Clone, Copy, PartialEq, Eq, Structural)]
pub struct Extent3D {
    pub width: u32,
    pub height: u32,
    pub depth: u32,
}

/// The settings of an image to create, but the queue families that share it.
#[derive(Debug, Clone, Copy, PartialEq, Eq, Structural)]
pub struct ImageInfo {
    pub flags: u32,
    pub image_type: i32,
    pub format: i32,
    pub extent: Extent3D,
    pub mip_levels: u32,
    pub array_layers: u32,
    pub samples: u32,
    pub tiling: i32,
    pub usage: u32,
    pub sharing_mode: i32,
    pub initial_layout: i32,
}

/// The settings that an image is created with.
pub struct ImageCI {
    pub info: ImageInfo,
    pub queue_families: Vec<u32>,
}

impl ImageCI {
    /// A 2D single-sampled, optimally tiled image of one mip level and one
    /// layer, with no format, usage or size yet, owned by one queue family.
    pub open spec fn spec_default_ci() -> ImageInfo {
        ImageInfo {
            flags: 0,
            image_type: IMAGE_TYPE_2D,
            format: FORMAT_UNDEFINED,
            extent: Extent3D { width: 0, height: 0, depth: 0 },
            mip_levels: 1,
            array_layers: 1,
            samples: SAMPLE_COUNT_1,
            tiling: IMAGE_TILING_OPTIMAL,
            usage: 0,
            sharing_mode: SHARING_MODE_EXCLUSIVE,
            initial_layout: IMAGE_LAYOUT_UNDEFINED,
        }
    }

    pub fn default_ci() -> (info: ImageInfo)
        ensures
            info == Self::spec_default_ci(),
    {
        ImageInfo {
            flags: 0,
            image_type: IMAGE_TYPE_2D,
            format: FORMAT_UNDEFINED,
            extent: Extent3D { width: 0, height: 0, depth: 0 },
            mip_levels: 1,
            array_layers: 1,
            samples: SAMPLE_COUNT_1,
            tiling: IMAGE_TILING_OPTIMAL,
            usage: 0,
            sharing_mode: SHARING_MODE_EXCLUSIVE,
            initial_layout: IMAGE_LAYOUT_UNDEFINED,
        }
    }

    /// An image of type `type_`, format `format` and size `dimension`, whose
    /// sides must all be greater than 0.
    pub fn new(type_: i32, format: i32, dimension: Extent3D) -> (ci: ImageCI)
        requires
            dimension.width > 0 && dimension.height > 0 && dimension.depth > 0,
        ensures
            ci.info == (ImageInfo { image_type: type_, format, extent: dimension, ..Self::spec_default_ci() }),
            ci.queue_families@ == Seq::<u32>::empty(),
    {
        ImageCI {
            info: ImageInfo { image_type: type_, format, extent: dimension, ..ImageCI::default_ci() },
            queue_families: Vec::new(),
        }
    }

    /// A 2D image; its depth is 1.
    pub fn new_2d(format: i32, width: u32, height: u32) -> (ci: ImageCI)
        requires
            width > 0 && height > 0,
        ensures
            ci.info == (ImageInfo {
                image_type: IMAGE_TYPE_2D,
                format,
                extent: Extent3D { width, height, depth: 1 },
                ..Self::spec_default_ci()
            }),
            ci.queue_families@ == Seq::<u32>::empty(),
    {
        ImageCI::new(IMAGE_TYPE_2D, format, Extent3D { width, height, depth: 1 })
    }

    pub fn flags(self, flags: u32) -> (ci: ImageCI)
        ensures
            ci.info == (ImageInfo { flags, ..self.info }),
            ci.queue_families@ == self.queue_families@,
    {
        ImageCI { info: ImageInfo { flags, ..self.info }, queue_families: self.queue_families }
    }

    pub fn usages(self, flags: u32) -> (ci: ImageCI)
        ensures
            ci.info == (ImageInfo { usage: flags, ..self.info }),
            ci.queue_families@ == self.queue_families@,
    {
        ImageCI { info: ImageInfo { usage: flags, ..self.info }, queue_families: self.queue_families }
    }

    pub fn tiling(self, tiling: i32) -> (ci: ImageCI)
        ensures
            ci.info == (ImageInfo { tiling, ..self.info }),
            ci.queue_families@ == self.queue_families@,
    {
        ImageCI { info: ImageInfo { tiling, ..self.info }, queue_families: self.queue_families }
    }

    pub fn samples(self, count: u32) -> (ci: ImageCI)
        ensures
            ci.info == (ImageInfo { samples: count, ..self.info }),
            ci.queue_families@ == self.queue_families@,
    {
        ImageCI { info: ImageInfo { samples: count, ..self.info }, queue_families: self.queue_families }
    }

    /// The number of mip levels, which must be greater than 0.
    pub fn mip_levels(self, level: u32) -> (ci: ImageCI)
        requires
            level > 0,
        ensures
            ci.info == (ImageInfo { mip_levels: level, ..self.info }),
            ci.queue_families@ == self.queue_families@,
    {
        ImageCI { info: ImageInfo { mip_levels: level, ..self.info }, queue_families: self.queue_families }
    }

    /// The number of layers, which must be greater than 0.
    pub fn array_layers(self, layers: u32) -> (ci: ImageCI)
        requires
            layers > 0,
        ensures
            ci.info == (ImageInfo { array_layers: layers, ..self.info }),
            ci.queue_families@ == self.queue_families@,
    {
        ImageCI { info: ImageInfo { array_layers: layers, ..self.info }, queue_families: self.queue_families }
    }

    pub fn initial_layout(self, layout: i32) -> (ci: ImageCI)
        ensures
            ci.info == (ImageInfo { initial_layout: layout, ..self.info }),
            ci.queue_families@ == self.queue_families@,
    {
        ImageCI { info: ImageInfo { initial_layout: layout, ..self.info }, queue_families: self.queue_families }
    }

    /// The queue families that share the image, more than one; the image is
    /// then shared concurrently.
    pub fn sharing_queues(self, families_indices: Vec<u32>) -> (ci: ImageCI)
        requires
            families_indices@.len() > 1,
        ensures
            ci.info == (ImageInfo { sharing_mode: SHARING_MODE_CONCURRENT, ..self.info }),
            ci.queue_families@ == families_indices@,
    {
        ImageCI {
            info: ImageInfo { sharing_mode: SHARING_MODE_CONCURRENT, ..self.info },
            queue_families: families_indices,
        }
    }

    /// An image can be created only with some usage.
    pub fn is_buildable(&self) -> (ok: bool)
        ensures
            ok == (self.info.usage != 0),
    {
        self.info.usage != 0
    }
}

/// How the channels of a view are read from the image.
#[derive(Debug, Clone, Copy, PartialEq, Eq, Structural)]
pub struct ComponentMapping {
    pub r: i32,
    pub g: i32,
    pub b: i32,
    pub a: i32,
}

/// The mip levels and layers of an image that a view or barrier covers.
#[derive(Debug, Clone, Copy, PartialEq, Eq, Structural)]
pub struct ImageSubresourceRange {
    pub aspect_mask: u32,
    pub base_mip_level: u32,
    pub level_count: u32,
    pub base_array_layer: u32,
    pub layer_count: u32,
}

/// The settings that an image view is created with.
#[derive(Debug, Clone, Copy, PartialEq, Eq, Structural)]
pub struct ImageViewCI {
    pub flags: u32,
    pub image: u64,
    pub view_type: i32,
    pub format: i32,
    pub components: ComponentMapping,
    pub subresource_range: ImageSubresourceRange,
}

impl ImageViewCI {
    /// A 2D view of no image yet, with the channels in place, of the colour of
    /// the first mip level and layer.
    pub open spec fn spec_default_ci() -> ImageViewCI {
        ImageViewCI {
            flags: 0,
            image: 0,
            view_type: IMAGE_VIEW_TYPE_2D,
            format: FORMAT_UNDEFINED,
            components: ComponentMapping {
                r: COMPONENT_SWIZZLE_R,
                g: COMPONENT_SWIZZLE_G,
                b: COMPONENT_SWIZZLE_B,
                a: COMPONENT_SWIZZLE_A,
            },
            subresource_range: ImageSubresourceRange {
                aspect_mask: IMAGE_ASPECT_COLOR,
                base_mip_level: 0,
                level_count: 1,
                base_array_layer: 0,
                layer_count: 1,
            },
        }
    }

    pub fn default_ci() -> (ci: ImageViewCI)
        ensures
            ci == Self::spec_default_ci(),
    {
        ImageViewCI {
            flags: 0,
            image: 0,
            view_type: IMAGE_VIEW_TYPE_2D,
            format: FORMAT_UNDEFINED,
            components: ComponentMapping {
                r: COMPONENT_SWIZZLE_R,
                g: COMPONENT_SWIZZLE_G,
                b: COMPONENT_SWIZZLE_B,
                a: COMPONENT_SWIZZLE_A,
            },
            subresource_range: ImageSubresourceRange {
                aspect_mask: IMAGE_ASPECT_COLOR,
                base_mip_level: 0,
                level_count: 1,
                base_array_layer: 0,
                layer_count: 1,
            },
        }
    }

    pub fn new(image: u64, type_: i32, format: i32) -> (ci: ImageViewCI)
        ensures
            ci == (ImageViewCI { image, format, view_type: type_, ..Self::spec_default_ci() }),
    {
        ImageViewCI { image, format, view_type: type_, ..ImageViewCI::default_ci() }
    }

    pub fn flags(self, flags: u32) -> (ci: ImageViewCI)
        ensures
            ci == (ImageViewCI { flags, ..self }),
    {
        ImageViewCI { flags, ..self }
    }

    pub fn components(self, components: ComponentMapping) -> (ci: ImageViewCI)
        ensures
            ci == (ImageViewCI { components, ..self }),
    {
        ImageViewCI { components, ..self }
    }

    pub fn sub_range(self, range: ImageSubresourceRange) -> (ci: ImageViewCI)
        ensures
            ci == (ImageViewCI { subresource_range: range, ..self }),
    {
        ImageViewCI { subresource_range: range, ..self }
    }
}

/// A layout transition of an image, with the accesses it orders.
#[derive(Debug, Clone, Copy, PartialEq, Eq, Structural)]
pub struct ImageBarrierCI {
    pub src_access_mask: u32,
    pub dst_access_mask: u32,
    pub old_layout: i32,
    pub new_layout: i32,
    pub src_queue_family_index: u32,
    pub dst_queue_family_index: u32,
    pub image: u64,
    pub subresource_range: ImageSubresourceRange,
}

impl ImageBarrierCI {
    /// A barrier that orders no access, changes no layout and transfers no ownership.
    pub open spec fn spec_default_ci() -> ImageBarrierCI {
        ImageBarrierCI {
            src_access_mask: 0,
            dst_access_mask: 0,
            old_layout: IMAGE_LAYOUT_UNDEFINED,
            new_layout: IMAGE_LAYOUT_UNDEFINED,
            src_queue_family_index: QUEUE_FAMILY_IGNORED,
            dst_queue_family_index: QUEUE_FAMILY_IGNORED,
            image: 0,
            subresource_range: ImageSubresourceRange {
                aspect_mask: 0,
                base_mip_level: 0,
                level_count: 0,
                base_array_layer: 0,
                layer_count: 0,
            },
        }
    }

    pub fn default_ci() -> (ci: ImageBarrierCI)
        ensures
            ci == Self::spec_default_ci(),
    {
        ImageBarrierCI {
            src_access_mask: 0,
            dst_access_mask: 0,
            old_layout: IMAGE_LAYOUT_UNDEFINED,
            new_layout: IMAGE_LAYOUT_UNDEFINED,
            src_queue_family_index: QUEUE_FAMILY_IGNORED,
            dst_queue_family_index: QUEUE_FAMILY_IGNORED,
            image: 0,
            subresource_range: ImageSubresourceRange {
                aspect_mask: 0,
                base_mip_level: 0,
                level_count: 0,
                base_array_layer: 0,
                layer_count: 0,
            },
        }
    }

    pub fn new(image: u64, subrange: ImageSubresourceRange) -> (ci: ImageBarrierCI)
        ensures
            ci == (ImageBarrierCI { image, subresource_range: subrange, ..Self::spec_default_ci() }),
    {
        ImageBarrierCI { image, subresource_range: subrange, ..ImageBarrierCI::default_ci() }
    }

    pub fn access_mask(self, from: u32, to: u32) -> (ci: ImageBarrierCI)
        ensures
            ci == (ImageBarrierCI { src_access_mask: from, dst_access_mask: to, ..self }),
    {
        ImageBarrierCI { src_access_mask: from, dst_access_mask: to, ..self }
    }

    pub fn layout(self, from: i32, to: i32) -> (ci: ImageBarrierCI)
        ensures
            ci == (ImageBarrierCI { old_layout: from, new_layout: to, ..self }),
    {
        ImageBarrierCI { old_layout: from, new_layout: to, ..self }
    }

    pub fn queue_family_index(self, from: u32, to: u32) -> (ci: ImageBarrierCI)
        ensures
            ci == (ImageBarrierCI { src_queue_family_index: from, dst_queue_family_index: to, ..self }),
    {
        ImageBarrierCI { src_queue_family_index: from, dst_queue_family_index: to, ..self }
    }
}

/// The settings that a sampler is created with; its float settings are kept
/// as the bits of 4-byte floats.
#[derive(Debug, Clone, Copy, PartialEq, Eq, Structural)]
pub struct SamplerCI {
    pub flags: u32,
    pub mag_filter: i32,
    pub min_filter: i32,
    pub mipmap_mode: i32,
    pub address_mode_u: i32,
    pub address_mode_v: i32,
    pub address_mode_w: i32,
    pub mip_lod_bias: u32,
    pub anisotropy_enable: bool,
    pub max_anisotropy: u32,
    pub compare_enable: bool,
    pub compare_op: i32,
    pub min_lod: u32,
    pub max_lod: u32,
    pub border_color: i32,
    pub unnormalized_coordinates: bool,
}

impl SamplerCI {
    /// Linear filtering and mipmaps, repeating addresses, no anisotropy, no
    /// comparison, level of detail 0 and an opaque black border.
    pub open spec fn spec_default_ci() -> SamplerCI {
        SamplerCI {
            flags: 0,
            mag_filter: FILTER_LINEAR,
            min_filter: FILTER_LINEAR,
            mipmap_mode: SAMPLER_MIPMAP_MODE_LINEAR,
            address_mode_u: SAMPLER_ADDRESS_MODE_REPEAT,
            address_mode_v: SAMPLER_ADDRESS_MODE_REPEAT,
            address_mode_w: SAMPLER_ADDRESS_MODE_REPEAT,
            mip_lod_bias: FLOAT_ZERO_BITS,
            anisotropy_enable: false,
            max_anisotropy: FLOAT_ONE_BITS,
            compare_enable: false,
            compare_op: COMPARE_OP_ALWAYS,
            min_lod: FLOAT_ZERO_BITS,
            max_lod: FLOAT_ZERO_BITS,
            border_color: BORDER_COLOR_INT_OPAQUE_BLACK,
            unnormalized_coordinates: false,
        }
    }

    pub fn default_ci() -> (ci: SamplerCI)
        ensures
            ci == Self::spec_default_ci(),
    {
        SamplerCI {
            flags: 0,
            mag_filter: FILTER_LINEAR,
            min_filter: FILTER_LINEAR,
            mipmap_mode: SAMPLER_MIPMAP_MODE_LINEAR,
            address_mode_u: SAMPLER_ADDRESS_MODE_REPEAT,
            address_mode_v: SAMPLER_ADDRESS_MODE_REPEAT,
            address_mode_w: SAMPLER_ADDRESS_MODE_REPEAT,
            mip_lod_bias: FLOAT_ZERO_BITS,
            anisotropy_enable: false,
            max_anisotropy: FLOAT_ONE_BITS,
            compare_enable: false,
            compare_op: COMPARE_OP_ALWAYS,
            min_lod: FLOAT_ZERO_BITS,
            max_lod: FLOAT_ZERO_BITS,
            border_color: BORDER_COLOR_INT_OPAQUE_BLACK,
            unnormalized_coordinates: false,
        }
    }

    pub fn new() -> (ci: SamplerCI)
        ensures
            ci == Self::spec_default_ci(),
    {
        SamplerCI::default_ci()
    }

    pub fn filter(self, mag: i32, min: i32) -> (ci: SamplerCI)
        ensures
            ci == (SamplerCI { mag_filter: mag, min_filter: min, ..self }),
    {
        SamplerCI { mag_filter: mag, min_filter: min, ..self }
    }

    pub fn mipmap(self, mode: i32) -> (ci: SamplerCI)
        ensures
            ci == (SamplerCI { mipmap_mode: mode, ..self }),
    {
        SamplerCI { mipmap_mode: mode, ..self }
    }

    pub fn address(self, u: i32, v: i32, w: i32) -> (ci: SamplerCI)
        ensures
            ci == (SamplerCI { address_mode_u: u, address_mode_v: v, address_mode_w: w, ..self }),
    {
        SamplerCI { address_mode_u: u, address_mode_v: v, address_mode_w: w, ..self }
    }

    /// The level-of-detail bias and range, as the bits of 4-byte floats.
    pub fn lod(self, mip_bias: u32, min: u32, max: u32) -> (ci: SamplerCI)
        ensures
            ci == (SamplerCI { mip_lod_bias: mip_bias, min_lod: min, max_lod: max, ..self }),
    {
        SamplerCI { mip_lod_bias: mip_bias, min_lod: min, max_lod: max, ..self }
    }

    /// Anisotropic filtering up to `max` (the bits of a 4-byte float), or none;
    /// without it the former maximum stays.
    pub fn anisotropy(self, max: Option<u32>) -> (ci: SamplerCI)
        ensures
            ci == (match max {
                Some(m) => SamplerCI { anisotropy_enable: true, max_anisotropy: m, ..self },
                None => SamplerCI { anisotropy_enable: false, ..self },
            }),
    {
        match max {
            Some(m) => SamplerCI { anisotropy_enable: true, max_anisotropy: m, ..self },
            None => SamplerCI { anisotropy_enable: false, ..self },
        }
    }

    /// A comparison before filtering, or none; without it the former
    /// operator stays.
    pub fn compare_op(self, op: Option<i32>) -> (ci: SamplerCI)
        ensures
            ci == (match op {
                Some(o) => SamplerCI { compare_enable: true, compare_op: o, ..self },
                None => SamplerCI { compare_enable: false, ..self },
            }),
    {
        match op {
            Some(o) => SamplerCI { compare_enable: true, compare_op: o, ..self },
            None => SamplerCI { compare_enable: false, ..self },
        }
    }

    pub fn border_color(self, color: i32) -> (ci: SamplerCI)
        ensures
            ci == (SamplerCI { border_color: color, ..self }),
    {
        SamplerCI { border_color: color, ..self }
    }

    pub fn unnormalize_coordinates_enable(self, enable: bool) -> (ci: SamplerCI)
        ensures
            ci == (SamplerCI { unnormalized_coordinates: enable, ..self }),
    {
        SamplerCI { unnormalized_coordinates: enable, ..self }
    }
}

} // verus!
