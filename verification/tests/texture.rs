use vkbase::ci::vma::MemoryUsage;
use vkbase::texture::{mip_copy_regions, MipCopyRegion, MipLevel, texture_2d_cis, texture_sampler_ci, texture_upload_barriers, texture_view_ci};

#[test]
fn mip_regions_are_back_to_back() {
    let levels = vec![
        MipLevel { width: 4, height: 4, size: 64 },
        MipLevel { width: 2, height: 2, size: 16 },
        MipLevel { width: 1, height: 1, size: 4 },
    ];
    let regions = mip_copy_regions(&levels);
    assert_eq!(
        regions,
        vec![
            MipCopyRegion { buffer_offset: 0, mip_level: 0, width: 4, height: 4 },
            MipCopyRegion { buffer_offset: 64, mip_level: 1, width: 2, height: 2 },
            MipCopyRegion { buffer_offset: 80, mip_level: 2, width: 1, height: 1 },
        ]
    );
}

#[test]
fn no_mip_levels_no_regions() {
    assert!(mip_copy_regions(&Vec::new()).is_empty());
}

#[test]
fn texture_settings() {
    let (image, allocation, staging) = texture_2d_cis(37, 256, 128, 9, 4096);
    assert_eq!((image.info.extent.width, image.info.extent.height, image.info.extent.depth), (256, 128, 1));
    assert_eq!(image.info.mip_levels, 9);
    assert_eq!(image.info.array_layers, 1);
    assert_eq!(image.info.usage, 0b110);
    assert_eq!(image.info.format, 37);
    assert_eq!(allocation.usage, MemoryUsage::GpuOnly);
    assert_eq!(staging.buffer.info.size, 4096);
    assert_eq!(staging.buffer.info.usage, 0b1);
    assert_eq!(staging.allocation.usage, MemoryUsage::CpuOnly);

    let (first, second) = texture_upload_barriers(77, 9);
    assert_eq!((first.old_layout, first.new_layout), (0, 7));
    assert_eq!((second.old_layout, second.new_layout), (7, 5));
    assert_eq!((first.dst_access_mask, second.src_access_mask, second.dst_access_mask), (0x1000, 0x1000, 0x20));
    assert_eq!(second.subresource_range.level_count, 9);
    assert_eq!(second.image, 77);

    let sampler = texture_sampler_ci(9.0f32.to_bits(), None);
    assert_eq!(f32::from_bits(sampler.max_lod), 9.0);
    assert!(sampler.compare_enable && sampler.compare_op == 0);
    assert!(!sampler.anisotropy_enable);
    assert_eq!(sampler.border_color, 4);
    let sampler = texture_sampler_ci(9.0f32.to_bits(), Some(16.0f32.to_bits()));
    assert!(sampler.anisotropy_enable);
    assert_eq!(f32::from_bits(sampler.max_anisotropy), 16.0);

    let view = texture_view_ci(77, 37, 9);
    assert_eq!((view.image, view.format, view.subresource_range.level_count), (77, 37, 9));
}
