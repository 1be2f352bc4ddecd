use vkbase::ci::buffer::{BufferCI, SHARING_MODE_CONCURRENT};
use vkbase::ci::command::{CommandBufferAI, CommandPoolCI};
use vkbase::ci::descriptor::{
    DescriptorBufferInfo, DescriptorBufferSetWI, DescriptorImageInfo, DescriptorImageSetWI, DescriptorPoolCI,
    DescriptorPoolSize, DescriptorSetsUpdateCI,
};
use vkbase::ci::device::SubmitCI;
use vkbase::ci::image::{Extent3D, ImageBarrierCI, ImageCI, ImageSubresourceRange, ImageViewCI, SamplerCI};
use vkbase::ci::pipeline::renderpass::{AttachmentDescCI, RenderPassCI, SubpassDescCI, SubpassDependencyCI, SUBPASS_EXTERNAL};
use vkbase::ci::pipeline::state::{
    BlendAttachmentSCI, DepthStencilSCI, VertexInputAttribute, VertexInputSCI, ViewportSCI, Viewport,
};
use vkbase::ci::pipeline::GraphicsPipelineCI;
use vkbase::ci::shader::ShaderStageCI;
use vkbase::ci::sync::FenceCI;
use vkbase::ci::vma::{MemoryUsage, VmaAllocationCI};

#[test]
fn vma_allocation_settings() {
    let ci = VmaAllocationCI::new(MemoryUsage::GpuOnly, 0b1);
    assert_eq!(ci.usage, MemoryUsage::GpuOnly);
    assert_eq!(ci.required_flags, 0b1);
    assert_eq!(ci.memory_type_bits, 0);
    assert_eq!(ci.pool, None);
    let ci = ci.flags(0b10).accept_memory_types(0b101).with_pool(7).preferred_flags(0b100);
    assert_eq!(ci.flags, 0b10);
    assert_eq!(ci.memory_type_bits, 0b101);
    assert_eq!(ci.pool, Some(7));
    assert_eq!(ci.preferred_flags, 0b100);
    assert_eq!(VmaAllocationCI::default_ci().usage, MemoryUsage::Unknown);
}

#[test]
fn image_settings() {
    let ci = ImageCI::new_2d(37, 640, 480).mip_levels(4).usages(0b100);
    assert_eq!(ci.info.extent, Extent3D { width: 640, height: 480, depth: 1 });
    assert_eq!(ci.info.format, 37);
    assert_eq!(ci.info.mip_levels, 4);
    assert_eq!(ci.info.array_layers, 1);
    assert_eq!(ci.info.samples, 1);
    assert!(ci.is_buildable());
    let shared = ImageCI::new_2d(37, 1, 1).sharing_queues(vec![0, 1]);
    assert_eq!(shared.info.sharing_mode, 1);
    assert_eq!(shared.queue_families, vec![0, 1]);
    assert!(!shared.is_buildable());

    let view = ImageViewCI::new(9, 1, 37);
    assert_eq!(view.image, 9);
    assert_eq!(view.components.r, 3);
    assert_eq!(view.subresource_range.level_count, 1);

    let range = ImageSubresourceRange { aspect_mask: 1, base_mip_level: 0, level_count: 3, base_array_layer: 0, layer_count: 1 };
    let barrier = ImageBarrierCI::new(9, range).layout(0, 7).access_mask(0, 0x1000);
    assert_eq!((barrier.old_layout, barrier.new_layout), (0, 7));
    assert_eq!(barrier.dst_access_mask, 0x1000);
    assert_eq!(barrier.src_queue_family_index, u32::MAX);
}

#[test]
fn sampler_settings() {
    let sampler = SamplerCI::new();
    assert_eq!(sampler.max_anisotropy, 1.0f32.to_bits());
    assert_eq!(sampler.compare_op, 7);
    assert!(!sampler.anisotropy_enable);
    let sampler = sampler.anisotropy(Some(16.0f32.to_bits())).compare_op(Some(0)).border_color(4);
    assert!(sampler.anisotropy_enable);
    assert_eq!(f32::from_bits(sampler.max_anisotropy), 16.0);
    assert!(sampler.compare_enable);
    assert_eq!(sampler.compare_op, 0);
    let sampler = sampler.anisotropy(None).compare_op(None);
    assert!(!sampler.anisotropy_enable && !sampler.compare_enable);
    // switching anisotropy off keeps the former maximum.
    assert_eq!(f32::from_bits(sampler.max_anisotropy), 16.0);
}

#[test]
fn buffer_and_command_settings() {
    let buffer = BufferCI::new(256).usage(0b10000);
    assert_eq!(buffer.info.size, 256);
    assert!(buffer.is_buildable());
    let shared = BufferCI::new(1).sharing_queues(vec![1, 2, 3]);
    assert_eq!(shared.info.sharing_mode, SHARING_MODE_CONCURRENT);
    assert_eq!(CommandBufferAI::new(5, 2).command_buffer_count, 2);
    assert_eq!(CommandBufferAI::new(5, 2).level(1).level, 1);
    assert_eq!(CommandPoolCI::new(3).flags(0b11).queue_family_index, 3);
    assert_eq!(FenceCI::new(true).flags, 1);
    assert_eq!(FenceCI::new(false).flags, 0);
    let submit = SubmitCI::new().add_command(4).add_wait(0x400, 8).add_signal(9);
    assert_eq!(submit.commands, vec![4]);
    assert_eq!(submit.wait_stages, vec![0x400]);
    assert_eq!(submit.wait_semaphores, vec![8]);
    assert_eq!(submit.signal_semaphores, vec![9]);
}

#[test]
fn descriptor_settings() {
    let pool = DescriptorPoolCI::new(2).add_descriptor(6, 3);
    assert_eq!(pool.pool_sizes, vec![DescriptorPoolSize { ty: 6, descriptor_count: 3 }]);
    assert!(pool.is_buildable());
    let buffers = DescriptorBufferSetWI::new(1, 0, 6)
        .add_buffer(DescriptorBufferInfo { buffer: 2, offset: 0, range: 64 })
        .add_buffer(DescriptorBufferInfo { buffer: 3, offset: 0, range: 64 });
    assert_eq!(buffers.write.descriptor_count, 2);
    let mut images = DescriptorImageSetWI::new(1, 1, 1).dst_array_element(2);
    images.set_images(vec![DescriptorImageInfo { sampler: 4, image_view: 5, image_layout: 5 }]);
    assert_eq!(images.write.descriptor_count, 1);
    assert_eq!(images.write.dst_array_element, 2);
    let update = DescriptorSetsUpdateCI::new().add_write(&buffers).add_write(&images);
    assert_eq!(update.writes.len(), 2);
    assert_eq!(update.writes[0].descriptor_count, 2);
    assert_eq!(update.writes[1].dst_binding, 1);
}

#[test]
fn render_pass_settings() {
    let color = AttachmentDescCI::new(44).op(1, 0).layout(0, 1000001002);
    assert_eq!(color.samples, 1);
    assert_eq!(color.stencil_load_op, 2);
    let subpass = SubpassDescCI::new(0)
        .add_color_attachment(0, 2)
        .add_resolve_attachment(1, 2)
        .set_depth_stencil_attachment(2, 3)
        .add_preserve_attachment(3);
    assert_eq!(subpass.counts.color_attachment_count, 1);
    // resolving leaves the counts; each preserved attachment is counted.
    assert_eq!(subpass.counts.preserve_attachment_count, 1);
    assert_eq!(subpass.preserves, vec![3]);
    let resolving = SubpassDescCI::new(0).add_color_attachment(0, 2).add_resolve_attachment(1, 2);
    assert_eq!(resolving.counts.preserve_attachment_count, 0);
    assert_eq!(resolving.counts.color_attachment_count, 1);
    assert_eq!(resolving.resolves.as_ref().map(|r| r.len()), Some(1));
    let preserving = SubpassDescCI::new(0).add_preserve_attachment(2).add_preserve_attachment(3);
    assert_eq!(preserving.counts.preserve_attachment_count, 2);
    assert_eq!(preserving.preserves, vec![2, 3]);
    let pass = RenderPassCI::new()
        .add_attachment(color)
        .add_subpass(subpass)
        .add_dependency(SubpassDependencyCI::new(SUBPASS_EXTERNAL, 0).stage_mask(0x400, 0x400));
    assert_eq!(pass.attachments.len(), 1);
    assert_eq!(pass.subpasses.len(), 1);
    assert_eq!(pass.dependencies[0].src_subpass, SUBPASS_EXTERNAL);
}

#[test]
fn pipeline_settings() {
    let mut input = VertexInputSCI::new()
        .add_attribute(VertexInputAttribute { location: 9, binding: 0, format: 106, offset: 0 })
        .add_attribute(VertexInputAttribute { location: 9, binding: 0, format: 106, offset: 12 });
    input.inner_set_attribute_locations();
    assert_eq!(input.attributes[0].location, 0);
    assert_eq!(input.attributes[1].location, 1);
    assert_eq!(input.attributes[1].offset, 12);

    let depth = DepthStencilSCI::new();
    assert_eq!(depth.depth_compare_op, 3);
    assert_eq!(f32::from_bits(depth.max_depth_bounds), 1.0);
    let depth = depth.depth_test(true, true, 1);
    assert!(depth.depth_test_enable && depth.depth_write_enable);

    let blend = BlendAttachmentSCI::new();
    assert_eq!(blend.color_write_mask, 0b1111);

    let viewport = ViewportSCI::new()
        .add_viewport(Viewport { x: 0, y: 0, width: 1, height: 1, min_depth: 0, max_depth: 0 })
        .with_dynamic_scissor_count(1);
    assert_eq!(viewport.viewport_count, 1);
    assert_eq!(viewport.scissor_count, 1);
    let viewport = viewport.with_dynamic_viewport_count(2);
    assert!(viewport.viewports.is_empty());
    assert_eq!(viewport.viewport_count, 2);

    let mut pipeline = GraphicsPipelineCI::new(10, 11);
    assert_eq!(pipeline.info.base_pipeline_index, -1);
    assert_eq!(pipeline.build_cache(99), 99);
    pipeline.set_pipeline_cache(5);
    assert_eq!(pipeline.build_cache(99), 5);
    pipeline.set_use_subpass(1);
    assert_eq!(pipeline.info.subpass, 1);
    pipeline.set_shaders(vec![ShaderStageCI::new(0x1, 3).main("vs_main")]);
    assert_eq!(pipeline.shader_stages[0].main, "vs_main");
}
