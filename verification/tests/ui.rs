use vkbase::error::VkError;
use vkbase::ci::pipeline::state::{VertexInputAttribute, VertexInputBinding};
use vkbase::ci::vma::MemoryUsage;
use vkbase::ui::pipeline::{glyph_image_cis, text_descriptor_layout, text_glyph_write, text_pipeline_ci, text_vertex_storage_ci};
use vkbase::ui::text::{input_descriptions, TextDraw, TextIter, TextSlots, TextType};

fn collect(mut iter: TextIter) -> Vec<Option<char>> {
    let mut out = Vec::new();
    while let Some(item) = iter.next() {
        out.push(item);
    }
    out
}

#[test]
fn static_text_walks_its_bytes() {
    let items = collect(TextIter::new(b"ab", TextType::Static));
    assert_eq!(items, vec![Some('a'), Some('b')]);
}

#[test]
fn dynamic_text_is_padded_to_capacity() {
    let items = collect(TextIter::new(b"ab", TextType::Dynamic { capacity: 4 }));
    assert_eq!(items, vec![Some('a'), Some('b'), None, None]);
}

#[test]
fn dynamic_text_longer_than_capacity_is_walked_whole() {
    let items = collect(TextIter::new(b"abc", TextType::Dynamic { capacity: 1 }));
    assert_eq!(items, vec![Some('a'), Some('b'), Some('c')]);
}

#[test]
fn text_pool_limits() {
    let mut pool = TextSlots::new();
    assert_eq!(
        pool.add_text(TextType::Static, 101),
        Err(VkError::Custom("Each sentence can't contain more that 100 character."))
    );
    assert_eq!(
        pool.add_text(TextType::Dynamic { capacity: 101 }, 5),
        Err(VkError::Custom("A dynamic sentence can't hold more than 100 character."))
    );
    for i in 0..10 {
        assert_eq!(pool.add_text(TextType::Static, 5), Ok(i));
    }
    assert_eq!(
        pool.add_text(TextType::Static, 5),
        Err(VkError::Custom("The text pool can't contain more than 10 sentence."))
    );
}

#[test]
fn text_draw_calls() {
    let mut pool = TextSlots::new();
    assert_eq!(pool.add_text(TextType::Static, 3), Ok(0));
    assert_eq!(pool.add_text(TextType::Dynamic { capacity: 20 }, 4), Ok(1));
    let draws = pool.draw_calls();
    assert_eq!(
        draws,
        vec![
            TextDraw { vertex_count: 18, first_vertex: 0 },
            TextDraw { vertex_count: 120, first_vertex: 600 },
        ]
    );
    pool.change_text(7, 0);
    assert_eq!(pool.draw_calls()[0], TextDraw { vertex_count: 42, first_vertex: 0 });
    assert_eq!(pool.vertex_offset(1), 600);
}

#[test]
fn character_vertex_input() {
    let sci = input_descriptions();
    assert_eq!(sci.bindings, vec![VertexInputBinding { binding: 0, stride: 32, input_rate: 0 }]);
    assert_eq!(
        sci.attributes,
        vec![
            VertexInputAttribute { location: 0, binding: 0, format: 103, offset: 0 },
            VertexInputAttribute { location: 1, binding: 0, format: 103, offset: 8 },
            VertexInputAttribute { location: 2, binding: 0, format: 109, offset: 16 },
        ]
    );
}

#[test]
fn text_pipeline_settings() {
    let ci = text_pipeline_ci(11, 12, 800, 600, 800.0f32.to_bits(), 600.0f32.to_bits(), 21, 22);
    assert_eq!(ci.info.render_pass, 11);
    assert_eq!(ci.info.layout, 12);
    assert_eq!(ci.info.base_pipeline_index, -1);
    assert_eq!(ci.viewport.viewports.len(), 1);
    assert_eq!(f32::from_bits(ci.viewport.viewports[0].width), 800.0);
    assert_eq!(f32::from_bits(ci.viewport.viewports[0].max_depth), 1.0);
    assert_eq!(ci.viewport.scissors[0].height, 600);
    assert_eq!(ci.rasterization.cull_mode, 0b10);
    assert_eq!(ci.color_blend.attachments.len(), 1);
    let blend = ci.color_blend.attachments[0];
    assert!(blend.blend_enable);
    assert_eq!((blend.src_color_blend_factor, blend.dst_color_blend_factor), (6, 7));
    assert_eq!((blend.src_alpha_blend_factor, blend.dst_alpha_blend_factor), (6, 7));
    assert_eq!(ci.shader_stages.len(), 2);
    assert_eq!((ci.shader_stages[0].stage, ci.shader_stages[0].module), (0x1, 21));
    assert_eq!((ci.shader_stages[1].stage, ci.shader_stages[1].module), (0x10, 22));
    assert_eq!(ci.shader_stages[0].main, "main");
    assert_eq!(ci.vertex_input.bindings[0].stride, 32);
}

#[test]
fn text_descriptor_settings() {
    let (pool, layout) = text_descriptor_layout();
    assert_eq!(pool.max_sets, 1);
    assert_eq!(pool.pool_sizes.len(), 1);
    assert_eq!((pool.pool_sizes[0].ty, pool.pool_sizes[0].descriptor_count), (1, 1));
    assert_eq!(layout.bindings.len(), 1);
    assert_eq!(layout.bindings[0].stage_flags, 0x10);
    let write = text_glyph_write(5, 6, 7);
    assert_eq!(write.write.dst_set, 5);
    assert_eq!(write.write.descriptor_count, 1);
    assert_eq!((write.images[0].sampler, write.images[0].image_view, write.images[0].image_layout), (6, 7, 5));
}

#[test]
fn glyph_image_and_text_storage_settings() {
    let (image, allocation, staging) = glyph_image_cis(300, 90, 27000);
    assert_eq!(image.info.format, 9);
    assert_eq!((image.info.extent.width, image.info.extent.height, image.info.extent.depth), (300, 90, 1));
    assert_eq!(image.info.usage, 0b100 | 0b10);
    assert_eq!(image.info.mip_levels, 1);
    assert_eq!(allocation.usage, MemoryUsage::GpuOnly);
    assert_eq!(staging.buffer.info.size, 27000);
    assert_eq!(staging.allocation.usage, MemoryUsage::CpuToGpu);
    let (buffer, memory) = text_vertex_storage_ci();
    assert_eq!(buffer.info.size, 32 * 10 * 100 * 6);
    assert_eq!(buffer.info.usage, 0x80);
    assert_eq!(memory, 0b110);
}
