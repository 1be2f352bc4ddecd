use vstd::prelude::*;

use crate::ci::descriptor::{
    DescriptorImageInfo, DescriptorImageSetWI, DescriptorPoolCI, DescriptorPoolSize, DescriptorSetLayoutBinding,
    DescriptorSetLayoutCI, WriteDescriptor,
};
use crate::ci::pipeline::state::{
    BlendAttachmentSCI, ColorBlendSCI, DepthStencilSCI, InputAssemblySCI, MultisampleSCI, RasterizationSCI, Rect2D,
    VertexInputAttribute, VertexInputBinding, Viewport, ViewportSCI, BLEND_OP_ADD, FLOAT_ONE_BITS,
    FRONT_FACE_COUNTER_CLOCKWISE, LOGIC_OP_COPY, POLYGON_MODE_FILL, VERTEX_INPUT_RATE_VERTEX,
};
use crate::gltf::attributes::{FORMAT_R32G32_SFLOAT, FORMAT_R32G32B32A32_SFLOAT};
use crate::ci::buffer::{BufferCI, BufferInfo, BUFFER_USAGE_TRANSFER_SRC, BUFFER_USAGE_VERTEX_BUFFER, SHARING_MODE_EXCLUSIVE};
use crate::ci::image::{Extent3D, ImageCI, ImageInfo, IMAGE_LAYOUT_SHADER_READ_ONLY_OPTIMAL, IMAGE_TYPE_2D};
use crate::ci::vma::{
    spec_buffer_request, staging_buffer_request, BufferRequest, MemoryUsage, VmaAllocationCI,
    MEMORY_PROPERTY_DEVICE_LOCAL, MEMORY_PROPERTY_HOST_COHERENT, MEMORY_PROPERTY_HOST_VISIBLE,
};
use crate::texture::{IMAGE_USAGE_SAMPLED, IMAGE_USAGE_TRANSFER_DST};
use crate::ui::text::{MAXIMUM_SENTENCE_COUNT, MAXIMUM_SENTENCE_TEXT_COUNT, VERTEX_PER_CHARACTER};
use crate::ci::pipeline::{GraphicsPipelineCI, GraphicsPipelineInfo};
use crate::ci::shader::ShaderStageCI;
use crate::ui::text::{input_descriptions, CHARACTER_VERTEX_SIZE};
use crate::utils::shaderc::{SHADER_STAGE_FRAGMENT, SHADER_STAGE_VERTEX};

verus! {

/// `vk::DescriptorType::COMBINED_IMAGE_SAMPLER`.
pub const DESCRIPTOR_TYPE_COMBINED_IMAGE_SAMPLER: i32 = 1;

/// `vk::CullModeFlags::BACK`.
pub const CULL_MODE_BACK: u32 = 0b10;

/// `vk::BlendFactor::SRC_ALPHA`.
pub const BLEND_FACTOR_SRC_ALPHA: i32 = 6;

/// `vk::BlendFactor::ONE_MINUS_SRC_ALPHA`.
pub const BLEND_FACTOR_ONE_MINUS_SRC_ALPHA: i32 = 7;

/// The text is blended over what was drawn by its alpha, in colour and alpha alike.
pub open spec fn spec_text_blend() -> BlendAttachmentSCI {
    BlendAttachmentSCI {
        blend_enable: true,
        src_color_blend_factor: BLEND_FACTOR_SRC_ALPHA,
        dst_color_blend_factor: BLEND_FACTOR_ONE_MINUS_SRC_ALPHA,
        color_blend_op: BLEND_OP_ADD,
        src_alpha_blend_factor: BLEND_FACTOR_SRC_ALPHA,
        dst_alpha_blend_factor: BLEND_FACTOR_ONE_MINUS_SRC_ALPHA,
        alpha_blend_op: BLEND_OP_ADD,
        ..BlendAttachmentSCI::spec_default_ci()
    }
}

/// The pool, the set layout and the write of the one descriptor the text
/// shader reads: the glyph image with its sampler, at binding 0 of the
/// fragment stage.
pub fn text_descriptor_layout() -> (cis: (DescriptorPoolCI, DescriptorSetLayoutCI))
    ensures
        cis.0.flags == 0,
        cis.0.max_sets == 1,
        cis.0.pool_sizes@ == seq![DescriptorPoolSize { ty: DESCRIPTOR_TYPE_COMBINED_IMAGE_SAMPLER, descriptor_count: 1 }],
        cis.1.flags == 0,
        cis.1.bindings@ == seq![
            DescriptorSetLayoutBinding {
                binding: 0,
                descriptor_type: DESCRIPTOR_TYPE_COMBINED_IMAGE_SAMPLER,
                descriptor_count: 1,
                stage_flags: SHADER_STAGE_FRAGMENT,
            },
        ],
{
    let pool = DescriptorPoolCI::new(1).add_descriptor(DESCRIPTOR_TYPE_COMBINED_IMAGE_SAMPLER, 1);
    let set_layout = DescriptorSetLayoutCI::new().add_binding(
        DescriptorSetLayoutBinding {
            binding: 0,
            descriptor_type: DESCRIPTOR_TYPE_COMBINED_IMAGE_SAMPLER,
            descriptor_count: 1,
            stage_flags: SHADER_STAGE_FRAGMENT,
        },
    );
    (pool, set_layout)
}

/// Writes the glyph image `glyph_view`, read through `sampler`, to binding 0 of `set`.
pub fn text_glyph_write(set: u64, sampler: u64, glyph_view: u64) -> (wi: DescriptorImageSetWI)
    ensures
        wi.write == (WriteDescriptor {
            dst_set: set,
            dst_binding: 0,
            dst_array_element: 0,
            descriptor_count: 1,
            descriptor_type: DESCRIPTOR_TYPE_COMBINED_IMAGE_SAMPLER,
        }),
        wi.images@ == seq![
            DescriptorImageInfo { sampler, image_view: glyph_view, image_layout: IMAGE_LAYOUT_SHADER_READ_ONLY_OPTIMAL },
        ],
{
    DescriptorImageSetWI::new(set, 0, DESCRIPTOR_TYPE_COMBINED_IMAGE_SAMPLER).add_image(
        DescriptorImageInfo { sampler, image_view: glyph_view, image_layout: IMAGE_LAYOUT_SHADER_READ_ONLY_OPTIMAL },
    )
}

/// The pipeline that draws text into `render_pass` over a `width` by `height`
/// area: character vertices, filled triangles with back faces culled, blended
/// by alpha, with the shader modules `vert_module` and `frag_module`.
/// `width_bits` and `height_bits` are the area's size as 4-byte floats.
pub fn text_pipeline_ci(
    render_pass: u64,
    pipeline_layout: u64,
    width: u32,
    height: u32,
    width_bits: u32,
    height_bits: u32,
    vert_module: u64,
    frag_module: u64,
) -> (ci: GraphicsPipelineCI)
    ensures
        ci.info == (GraphicsPipelineInfo {
            flags: 0,
            render_pass,
            layout: pipeline_layout,
            subpass: 0,
            base_pipeline_handle: 0,
            base_pipeline_index: -1i32,
        }),
        ci.vertex_input.flags == 0,
        ci.vertex_input.bindings@ == seq![
            VertexInputBinding { binding: 0, stride: CHARACTER_VERTEX_SIZE, input_rate: VERTEX_INPUT_RATE_VERTEX },
        ],
        ci.vertex_input.attributes@ == seq![
            VertexInputAttribute { location: 0, binding: 0, format: FORMAT_R32G32_SFLOAT, offset: 0 },
            VertexInputAttribute { location: 1, binding: 0, format: FORMAT_R32G32_SFLOAT, offset: 8 },
            VertexInputAttribute { location: 2, binding: 0, format: FORMAT_R32G32B32A32_SFLOAT, offset: 16 },
        ],
        ci.input_assembly == InputAssemblySCI::new_spec(),
        ci.depth_stencil == DepthStencilSCI::spec_default_ci(),
        ci.multisample == MultisampleSCI::new_spec(),
        ci.dynamics.flags == 0 && ci.dynamics.dynamics@.len() == 0,
        ci.viewport.viewports@ == seq![
            Viewport { x: 0, y: 0, width: width_bits, height: height_bits, min_depth: 0, max_depth: FLOAT_ONE_BITS },
        ],
        ci.viewport.scissors@ == seq![Rect2D { x: 0, y: 0, width, height }],
        ci.viewport.viewport_count == 1,
        ci.viewport.scissor_count == 1,
        ci.rasterization == (RasterizationSCI {
            polygon_mode: POLYGON_MODE_FILL,
            cull_mode: CULL_MODE_BACK,
            front_face: FRONT_FACE_COUNTER_CLOCKWISE,
            ..RasterizationSCI::spec_default_ci()
        }),
        !ci.color_blend.logic_op_enable,
        ci.color_blend.logic_op == LOGIC_OP_COPY,
        ci.color_blend.flags == 0,
        ci.color_blend.blend_constants@ == seq![0u32, 0u32, 0u32, 0u32],
        ci.color_blend.attachments@ == seq![spec_text_blend()],
        ci.viewport.flags == 0,
        ci.shader_stages@.len() == 2,
        ci.shader_stages@[0].flags == 0 && ci.shader_stages@[1].flags == 0,
        ci.shader_stages@[0].stage == SHADER_STAGE_VERTEX,
        ci.shader_stages@[0].module == vert_module,
        ci.shader_stages@[0].main@ == "main"@,
        ci.shader_stages@[0].specialization.is_none(),
        ci.shader_stages@[1].stage == SHADER_STAGE_FRAGMENT,
        ci.shader_stages@[1].module == frag_module,
        ci.shader_stages@[1].main@ == "main"@,
        ci.shader_stages@[1].specialization.is_none(),
        ci.cache.is_none(),
{
    let viewport_state = ViewportSCI::new().add_viewport(
        Viewport { x: 0, y: 0, width: width_bits, height: height_bits, min_depth: 0, max_depth: FLOAT_ONE_BITS },
    ).add_scissor(Rect2D { x: 0, y: 0, width, height });

    let rasterization_state = RasterizationSCI::new().polygon(POLYGON_MODE_FILL).cull_face(
        CULL_MODE_BACK,
        FRONT_FACE_COUNTER_CLOCKWISE,
    );

    let blend_attachment = BlendAttachmentSCI::new().blend_enable(true).color(
        BLEND_OP_ADD,
        BLEND_FACTOR_SRC_ALPHA,
        BLEND_FACTOR_ONE_MINUS_SRC_ALPHA,
    ).alpha(BLEND_OP_ADD, BLEND_FACTOR_SRC_ALPHA, BLEND_FACTOR_ONE_MINUS_SRC_ALPHA);
    let blend_state = ColorBlendSCI::new().add_attachment(blend_attachment);

    let mut pipeline_ci = GraphicsPipelineCI::new(render_pass, pipeline_layout);
    pipeline_ci.set_vertex_input(input_descriptions());
    pipeline_ci.set_viewport(viewport_state);
    pipeline_ci.set_rasterization(rasterization_state);
    pipeline_ci.set_color_blend(blend_state);

    let mut stages: Vec<ShaderStageCI> = Vec::new();
    stages.push(ShaderStageCI::new(SHADER_STAGE_VERTEX, vert_module));
    stages.push(ShaderStageCI::new(SHADER_STAGE_FRAGMENT, frag_module));
    pipeline_ci.set_shaders(stages);
    pipeline_ci
}

/// `vk::Format::R8_UNORM`: one 8-bit channel, the alpha of the glyphs.
pub const FORMAT_R8_UNORM: i32 = 9;

/// The image that holds the glyphs, one alpha byte per texel, `width` by
/// `height` texels, written by a transfer and sampled by the text shader, in
/// device memory; and the staging buffer of `size` bytes its texels are
/// written to first.
pub fn glyph_image_cis(width: u32, height: u32, size: u64) -> (cis: (ImageCI, VmaAllocationCI, BufferRequest))
    requires
        width > 0 && height > 0,
        size > 0,
    ensures
        cis.0.info == (ImageInfo {
            image_type: IMAGE_TYPE_2D,
            format: FORMAT_R8_UNORM,
            extent: Extent3D { width, height, depth: 1 },
            usage: IMAGE_USAGE_SAMPLED | IMAGE_USAGE_TRANSFER_DST,
            ..ImageCI::spec_default_ci()
        }),
        cis.0.queue_families@ == Seq::<u32>::empty(),
        cis.1 == (VmaAllocationCI {
            usage: MemoryUsage::GpuOnly,
            required_flags: MEMORY_PROPERTY_DEVICE_LOCAL,
            ..VmaAllocationCI::spec_default_ci()
        }),
        spec_buffer_request(
            cis.2,
            size,
            BUFFER_USAGE_TRANSFER_SRC,
            MemoryUsage::CpuToGpu,
            MEMORY_PROPERTY_HOST_VISIBLE | MEMORY_PROPERTY_HOST_COHERENT,
        ),
{
    let image = ImageCI::new_2d(FORMAT_R8_UNORM, width, height).usages(IMAGE_USAGE_SAMPLED | IMAGE_USAGE_TRANSFER_DST);
    let allocation = VmaAllocationCI::new(MemoryUsage::GpuOnly, MEMORY_PROPERTY_DEVICE_LOCAL);
    (image, allocation, staging_buffer_request(size))
}

/// The size in bytes of the vertex buffer of the texts: a slot of the most
/// characters for each of the most texts, six vertices of 32 bytes per character.
pub const TEXT_VERTEX_BUFFER_SIZE: u64 = 192_000;

/// The vertex buffer that holds the vertices of all text slots, and the memory
/// properties it needs: the host writes it while it stays mapped.
pub fn text_vertex_storage_ci() -> (cis: (BufferCI, u32))
    ensures
        TEXT_VERTEX_BUFFER_SIZE == crate::ui::text::CHARACTER_VERTEX_SIZE * MAXIMUM_SENTENCE_COUNT
            * MAXIMUM_SENTENCE_TEXT_COUNT * VERTEX_PER_CHARACTER,
        cis.0.info == (BufferInfo {
            flags: 0,
            size: TEXT_VERTEX_BUFFER_SIZE,
            usage: BUFFER_USAGE_VERTEX_BUFFER,
            sharing_mode: SHARING_MODE_EXCLUSIVE,
        }),
        cis.0.queue_families@ == Seq::<u32>::empty(),
        cis.1 == MEMORY_PROPERTY_HOST_VISIBLE | MEMORY_PROPERTY_HOST_COHERENT,
{
    (
        BufferCI::new(TEXT_VERTEX_BUFFER_SIZE).usage(BUFFER_USAGE_VERTEX_BUFFER),
        MEMORY_PROPERTY_HOST_VISIBLE | MEMORY_PROPERTY_HOST_COHERENT,
    )
}

} // verus!
