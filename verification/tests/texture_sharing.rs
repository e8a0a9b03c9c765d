use ash::vk;
use editor_link::external_texture::{
    lowest_set_bit, sample_count_to_vk, select_memory_type, wgpu_dimension_to_image_type,
    wgpu_usage_to_hal_usage, wgpu_usage_to_vk, ImageExtent, MemoryProperties, MemoryRequirements,
    TextureDescriptor, TextureDimension, TextureSize, HAL_COLOR_TARGET, HAL_COPY_DST, HAL_COPY_SRC,
    HAL_RESOURCE, HAL_STORAGE_READ_ONLY, HAL_STORAGE_READ_WRITE, USAGE_COPY_DST, USAGE_COPY_SRC,
    USAGE_RENDER_ATTACHMENT, USAGE_STORAGE_BINDING, USAGE_TEXTURE_BINDING,
};
use editor_link::shared_texture::{
    Errno, ExternalTexture, ExternalTextureImportError, ExternalTextureInfo, TextureImport,
};
use editor_link::texture_build::{
    create_exportable_texture, exporter_side, import_texture, importer_side, BuildAction,
    BuildReply, BuildStep, MemorySource, TextureBuild,
};
use editor_link::texture_format::TextureFormat;
use editor_link::texture_share::{
    export_texture, export_texture_win32, exportable_image, exportable_memory,
    import_texture_win32, steal_fd_unavailable, steal_fd_via_pidfd, TextureMemory,
    TextureMetadata, TextureShareError, VkResult,
};
use wgpu::wgt::TextureUses;

const DEVICE_LOCAL: u32 = 1;
const HOST_VISIBLE: u32 = 2;

fn texture(dimension: TextureDimension, width: u32, height: u32, layers: u32) -> TextureDescriptor {
    TextureDescriptor {
        label: Some("scene".to_string()),
        size: TextureSize { width, height, depth_or_array_layers: layers },
        mip_level_count: 1,
        sample_count: 4,
        dimension,
        format: TextureFormat::Rgba8UnormSrgb,
        usage: USAGE_RENDER_ATTACHMENT | USAGE_COPY_SRC,
        view_formats: vec![TextureFormat::Rgba8Unorm],
    }
}

fn memory(count: u32, flags: &[u32]) -> MemoryProperties {
    let mut property_flags = [0; 32];
    for (i, flag) in flags.iter().enumerate() {
        property_flags[i] = *flag;
    }
    MemoryProperties { memory_type_count: count, property_flags }
}

fn exported(desc: &TextureDescriptor) -> TextureMetadata {
    let requirements = MemoryRequirements { size: 4096, memory_type_bits: 0b0110 };
    let types = memory(3, &[DEVICE_LOCAL, DEVICE_LOCAL, DEVICE_LOCAL]);
    match export_texture(desc, requirements, &types, Ok(17)) {
        Ok((fd, metadata)) => {
            assert_eq!(fd, 17);
            metadata
        }
        Err(error) => panic!("{:?}", error),
    }
}

#[test]
fn sample_counts_are_those_of_vulkan() {
    assert_eq!(sample_count_to_vk(1), vk::SampleCountFlags::TYPE_1.as_raw());
    assert_eq!(sample_count_to_vk(2), vk::SampleCountFlags::TYPE_2.as_raw());
    assert_eq!(sample_count_to_vk(4), vk::SampleCountFlags::TYPE_4.as_raw());
    assert_eq!(sample_count_to_vk(8), vk::SampleCountFlags::TYPE_8.as_raw());
    assert_eq!(sample_count_to_vk(16), vk::SampleCountFlags::TYPE_16.as_raw());
    assert_eq!(sample_count_to_vk(32), vk::SampleCountFlags::TYPE_32.as_raw());
    assert_eq!(sample_count_to_vk(64), vk::SampleCountFlags::TYPE_64.as_raw());
    assert_eq!(sample_count_to_vk(0), vk::SampleCountFlags::TYPE_1.as_raw());
    assert_eq!(sample_count_to_vk(3), vk::SampleCountFlags::TYPE_1.as_raw());
    assert_eq!(sample_count_to_vk(128), vk::SampleCountFlags::TYPE_1.as_raw());
}

#[test]
fn usage_flags_are_those_of_wgpu() {
    assert_eq!(USAGE_COPY_SRC, wgpu::TextureUsages::COPY_SRC.bits());
    assert_eq!(USAGE_COPY_DST, wgpu::TextureUsages::COPY_DST.bits());
    assert_eq!(USAGE_TEXTURE_BINDING, wgpu::TextureUsages::TEXTURE_BINDING.bits());
    assert_eq!(USAGE_STORAGE_BINDING, wgpu::TextureUsages::STORAGE_BINDING.bits());
    assert_eq!(USAGE_RENDER_ATTACHMENT, wgpu::TextureUsages::RENDER_ATTACHMENT.bits());
    assert_eq!(HAL_COPY_SRC, TextureUses::COPY_SRC.bits());
    assert_eq!(HAL_COPY_DST, TextureUses::COPY_DST.bits());
    assert_eq!(HAL_RESOURCE, TextureUses::RESOURCE.bits());
    assert_eq!(HAL_COLOR_TARGET, TextureUses::COLOR_TARGET.bits());
    assert_eq!(HAL_STORAGE_READ_ONLY, TextureUses::STORAGE_READ_ONLY.bits());
    assert_eq!(HAL_STORAGE_READ_WRITE, TextureUses::STORAGE_READ_WRITE.bits());
}

#[test]
fn every_usage_is_carried_over() {
    for usage in 0..32u32 {
        let wanted = wgpu::TextureUsages::from_bits_retain(usage);
        let mut image = vk::ImageUsageFlags::empty();
        let mut uses = TextureUses::empty();
        if wanted.contains(wgpu::TextureUsages::COPY_SRC) {
            image |= vk::ImageUsageFlags::TRANSFER_SRC;
            uses |= TextureUses::COPY_SRC;
        }
        if wanted.contains(wgpu::TextureUsages::COPY_DST) {
            image |= vk::ImageUsageFlags::TRANSFER_DST;
            uses |= TextureUses::COPY_DST;
        }
        if wanted.contains(wgpu::TextureUsages::TEXTURE_BINDING) {
            image |= vk::ImageUsageFlags::SAMPLED;
            uses |= TextureUses::RESOURCE;
        }
        if wanted.contains(wgpu::TextureUsages::STORAGE_BINDING) {
            image |= vk::ImageUsageFlags::STORAGE;
            uses |= TextureUses::STORAGE_READ_ONLY | TextureUses::STORAGE_READ_WRITE;
        }
        if wanted.contains(wgpu::TextureUsages::RENDER_ATTACHMENT) {
            image |= vk::ImageUsageFlags::COLOR_ATTACHMENT;
            uses |= TextureUses::COLOR_TARGET;
        }
        assert_eq!(wgpu_usage_to_vk(usage), image.as_raw());
        assert_eq!(wgpu_usage_to_hal_usage(usage), uses.bits());
        assert_eq!(wgpu_usage_to_vk(usage | 0x40), image.as_raw());
        assert_eq!(wgpu_usage_to_hal_usage(usage | 0x40), uses.bits());
    }
}

#[test]
fn dimensions_become_image_types() {
    assert_eq!(
        wgpu_dimension_to_image_type(TextureDimension::D1),
        vk::ImageType::TYPE_1D.as_raw(),
    );
    assert_eq!(
        wgpu_dimension_to_image_type(TextureDimension::D2),
        vk::ImageType::TYPE_2D.as_raw(),
    );
    assert_eq!(
        wgpu_dimension_to_image_type(TextureDimension::D3),
        vk::ImageType::TYPE_3D.as_raw(),
    );
}

#[test]
fn lowest_set_bit_counts_from_zero() {
    assert_eq!(lowest_set_bit(1), 0);
    assert_eq!(lowest_set_bit(0b0110), 1);
    assert_eq!(lowest_set_bit(0x8000_0000), 31);
    assert_eq!(lowest_set_bit(0), 32);
}

#[test]
fn memory_of_the_device_is_preferred() {
    let both = DEVICE_LOCAL | HOST_VISIBLE;
    let types = memory(3, &[HOST_VISIBLE, both, DEVICE_LOCAL]);
    assert_eq!(select_memory_type(&types, 0b111, DEVICE_LOCAL), 1);
    assert_eq!(select_memory_type(&types, 0b101, DEVICE_LOCAL), 2);
    assert_eq!(select_memory_type(&types, 0b111, both), 1);
}

#[test]
fn any_admitted_memory_will_do() {
    let types = memory(3, &[HOST_VISIBLE, HOST_VISIBLE, DEVICE_LOCAL]);
    assert_eq!(select_memory_type(&types, 0b010, DEVICE_LOCAL), 1);
    assert_eq!(select_memory_type(&types, 0, DEVICE_LOCAL), 0);
    assert_eq!(select_memory_type(&types, 0b1000, DEVICE_LOCAL), 0);
    assert_eq!(select_memory_type(&memory(0, &[]), 0b1, DEVICE_LOCAL), 0);
}

#[test]
fn importer_uses_the_memory_type_that_the_exporter_chose() {
    let desc = texture(TextureDimension::D2, 64, 32, 1);
    let requirements = MemoryRequirements { size: 8192, memory_type_bits: 0b11 };
    let types = memory(2, &[HOST_VISIBLE, DEVICE_LOCAL]);
    let mut exporting = started(create_exportable_texture(true, &desc));
    exporting.advance(BuildReply::Image(Ok(100)));
    exporting.advance(BuildReply::Memory { requirements, properties: types });
    assert_eq!(
        exporting.action(),
        BuildAction::AllocateMemory {
            allocation_size: 8192,
            memory_type_index: 1,
            import_fd: None,
        },
    );
    let types = memory(2, &[HOST_VISIBLE, DEVICE_LOCAL]);
    let metadata = match export_texture(&desc, requirements, &types, Ok(17)) {
        Ok((_, metadata)) => metadata,
        Err(error) => panic!("{:?}", error),
    };
    assert_eq!(metadata.memory_type_index, 1);
    assert_eq!(lowest_set_bit(requirements.memory_type_bits), 0);
    let importing = started(import_texture(true, 33, &metadata));
    assert_eq!(importing.source, MemorySource::Imported { fd: 33, memory_type_index: 1 });
}

#[test]
fn flat_texture_is_rebuilt_by_the_importer() {
    let desc = texture(TextureDimension::D2, 640, 480, 1);
    let built = exportable_image(&desc);
    let rebuilt = exported(&desc).image_create_info();
    assert_eq!(built, rebuilt);
    assert_eq!(built.extent, ImageExtent { width: 640, height: 480, depth: 1 });
    assert_eq!(built.array_layers, 1);
    assert_eq!(built.samples, 4);
    assert_eq!(built.format, vk::Format::R8G8B8A8_SRGB.as_raw());
    assert_eq!(built.usage, 1 | 16);
    assert_eq!(built.handle_types, vk::ExternalMemoryHandleTypeFlags::OPAQUE_FD.as_raw());
}

#[test]
fn layered_texture_is_rebuilt_by_the_importer() {
    let desc = texture(TextureDimension::D2, 640, 480, 6);
    let built = exportable_image(&desc);
    let metadata = exported(&desc);
    assert_eq!(metadata.image_create_info(), built);
    assert_eq!(metadata.extent_depth, 1);
    assert_eq!(metadata.array_layers, 6);
    assert_eq!(metadata.wgpu_size.depth_or_array_layers, 6);
}

#[test]
fn flat_and_deep_textures_are_rebuilt_by_the_importer() {
    let line = texture(TextureDimension::D1, 640, 1, 1);
    assert_eq!(exported(&line).image_create_info(), exportable_image(&line));
    let high = texture(TextureDimension::D1, 640, 7, 2);
    let metadata = exported(&high);
    assert_eq!(metadata.vk_extent(), ImageExtent { width: 640, height: 1, depth: 1 });
    assert_eq!(metadata.array_layers, 2);
    assert_eq!(metadata.image_create_info(), exportable_image(&high));
    let deep = texture(TextureDimension::D3, 8, 4, 2);
    let metadata = exported(&deep);
    assert_eq!(metadata.vk_extent(), ImageExtent { width: 8, height: 4, depth: 2 });
    assert_eq!(metadata.array_layers, 1);
    assert_eq!(metadata.image_create_info(), exportable_image(&deep));
}

#[test]
fn unknown_sample_count_is_told_as_one_sample() {
    let mut desc = texture(TextureDimension::D2, 640, 480, 1);
    desc.sample_count = 3;
    assert_eq!(exportable_image(&desc).samples, 3);
    assert_eq!(exported(&desc).samples, 1);
}

#[test]
fn deep_texture_has_slices_and_one_layer() {
    let built = exportable_image(&texture(TextureDimension::D3, 8, 4, 2));
    assert_eq!(built.extent, ImageExtent { width: 8, height: 4, depth: 2 });
    assert_eq!(built.array_layers, 1);
    assert_eq!(built.image_type, vk::ImageType::TYPE_3D.as_raw());
}

#[test]
fn metadata_tells_all_of_the_texture() {
    let desc = texture(TextureDimension::D2, 640, 480, 1);
    let metadata = exported(&desc);
    assert_eq!(metadata.vk_extent(), ImageExtent { width: 640, height: 480, depth: 1 });
    assert_eq!(metadata.allocation_size, 4096);
    assert_eq!(metadata.memory_type_index, 1);
    assert_eq!(metadata.image_fd, 17);
    assert_eq!(metadata.wgpu_size, desc.size);
    assert_eq!(metadata.wgpu_usage, desc.usage);
    assert_eq!(metadata.wgpu_sample_count, 4);
    assert!(metadata.view_formats.is_empty());
    let copy = metadata.clone();
    assert_eq!(copy.image_create_info(), metadata.image_create_info());
    assert_eq!(copy.wgpu_format, metadata.wgpu_format);
}

#[test]
fn copy_of_metadata_keeps_the_view_formats() {
    let mut metadata = exported(&texture(TextureDimension::D2, 2, 2, 1));
    metadata.view_formats = vec![TextureFormat::Rgba8Unorm, TextureFormat::Rgba8UnormSrgb];
    let copy = metadata.clone();
    assert_eq!(copy.view_formats, metadata.view_formats);
}

#[test]
fn only_memory_of_its_own_can_be_exported() {
    assert!(matches!(
        exportable_memory(true, true, TextureMemory::Dedicated(9)),
        Ok(9)
    ));
    assert!(matches!(
        exportable_memory(true, true, TextureMemory::Allocation),
        Err(TextureShareError::NoDedicatedMemory)
    ));
    assert!(matches!(
        exportable_memory(true, true, TextureMemory::External),
        Err(TextureShareError::NoDedicatedMemory)
    ));
    assert!(matches!(
        exportable_memory(false, true, TextureMemory::Dedicated(9)),
        Err(TextureShareError::NotVulkan)
    ));
    assert!(matches!(
        exportable_memory(true, false, TextureMemory::Dedicated(9)),
        Err(TextureShareError::NotVulkan)
    ));
}

#[test]
fn failed_export_tells_the_code() {
    let desc = texture(TextureDimension::D2, 2, 2, 1);
    let requirements = MemoryRequirements { size: 16, memory_type_bits: 1 };
    assert!(matches!(
        export_texture(&desc, requirements, &memory(0, &[]), Err(VkResult(-2))),
        Err(TextureShareError::Vulkan(VkResult(-2)))
    ));
}

#[test]
fn messages_of_sharing_errors() {
    let device_lost = TextureShareError::Vulkan(VkResult(-4));
    assert_eq!(device_lost.message(), "Vulkan error: ERROR_DEVICE_LOST");
    assert_eq!(TextureShareError::Vulkan(VkResult(-123456)).message(), "Vulkan error: -123456");
    assert_eq!(
        TextureShareError::NotVulkan.message(),
        "device/texture is not backed by the Vulkan backend",
    );
    assert_eq!(
        TextureShareError::NoDedicatedMemory.message(),
        "texture has no dedicated VkDeviceMemory (sub-allocated or external memory)",
    );
    assert_eq!(
        TextureShareError::FdTransfer("gone".to_string()).message(),
        "FD transfer failed: gone",
    );
    assert_eq!(
        TextureShareError::Win32Stub.message(),
        "Win32 import/export is not yet implemented",
    );
    assert_eq!(
        TextureShareError::from(VkResult(5)).message_with("INCOMPLETE"),
        "Vulkan error: INCOMPLETE",
    );
}

#[test]
fn messages_of_import_errors() {
    assert_eq!(
        ExternalTextureImportError::from(Errno(3)).message("No such process (os error 3)"),
        "Io error: No such process (os error 3)",
    );
    assert_eq!(
        ExternalTextureImportError::InvalidPid.message(""),
        "Invalid pid value in external texture info",
    );
    assert_eq!(
        ExternalTextureImportError::from(TextureShareError::NotVulkan).message(""),
        "Texture share error: device/texture is not backed by the Vulkan backend",
    );
}

#[test]
fn descriptor_that_could_not_be_fetched() {
    assert!(matches!(steal_fd_via_pidfd(Ok(5)), Ok(5)));
    match steal_fd_via_pidfd(Err("Operation not permitted".to_string())) {
        Err(error) => assert_eq!(
            error.message(),
            "FD transfer failed: pidfd_getfd failed: Operation not permitted",
        ),
        Ok(fd) => panic!("{}", fd),
    }
    match steal_fd_unavailable() {
        Err(error) => assert_eq!(
            error.message(),
            "FD transfer failed: pidfd_getfd is only available on Linux",
        ),
        Ok(fd) => panic!("{}", fd),
    }
}

#[test]
fn windows_is_refused() {
    let desc = texture(TextureDimension::D2, 2, 2, 1);
    assert!(matches!(export_texture_win32(&desc), Err(TextureShareError::Win32Stub)));
    assert!(matches!(
        import_texture_win32(1, &exported(&desc)),
        Err(TextureShareError::Win32Stub)
    ));
}

fn started(build: Result<TextureBuild, TextureShareError>) -> TextureBuild {
    match build {
        Ok(build) => build,
        Err(error) => panic!("{:?}", error),
    }
}

fn answer_memory(build: &mut TextureBuild) {
    build.advance(BuildReply::Memory {
        requirements: MemoryRequirements { size: 8192, memory_type_bits: 0b11 },
        properties: memory(2, &[HOST_VISIBLE, DEVICE_LOCAL]),
    });
}

#[test]
fn exportable_texture_is_built_step_by_step() {
    let desc = texture(TextureDimension::D2, 640, 480, 1);
    let mut build = started(create_exportable_texture(true, &desc));
    assert_eq!(build.action(), BuildAction::CreateImage(exportable_image(&desc)));
    assert_eq!(build.descriptor.label, Some("scene".to_string()));
    assert_eq!(build.descriptor.usage, HAL_COPY_SRC | HAL_COLOR_TARGET);
    assert_eq!(build.descriptor.view_formats, vec![TextureFormat::Rgba8Unorm]);
    build.advance(BuildReply::Image(Ok(100)));
    assert_eq!(build.action(), BuildAction::QueryMemory { image: 100 });
    answer_memory(&mut build);
    assert_eq!(
        build.action(),
        BuildAction::AllocateMemory {
            allocation_size: 8192,
            memory_type_index: 1,
            import_fd: None,
        },
    );
    build.advance(BuildReply::Allocation(Ok(200)));
    assert_eq!(build.action(), BuildAction::BindMemory { image: 100, memory: 200 });
    build.advance(BuildReply::Bound(Ok(())));
    assert_eq!(
        build.action(),
        BuildAction::WrapTexture { image: 100, owner: TextureMemory::Dedicated(200) },
    );
    assert!(build.outcome().is_none());
    build.advance(BuildReply::Done);
    assert_eq!(build.action(), BuildAction::Rest);
    assert!(matches!(build.outcome(), Some(Ok((100, 200)))));
}

#[test]
fn imported_texture_takes_the_descriptor_over() {
    let metadata = exported(&texture(TextureDimension::D2, 640, 480, 1));
    let mut build = started(import_texture(true, 33, &metadata));
    assert_eq!(build.source, MemorySource::Imported { fd: 33, memory_type_index: 1 });
    assert_eq!(build.descriptor.label, Some("imported-external-texture".to_string()));
    assert_eq!(build.action(), BuildAction::CreateImage(metadata.image_create_info()));
    build.advance(BuildReply::Image(Ok(100)));
    answer_memory(&mut build);
    assert_eq!(
        build.action(),
        BuildAction::AllocateMemory {
            allocation_size: 8192,
            memory_type_index: 1,
            import_fd: Some(33),
        },
    );
    build.advance(BuildReply::Allocation(Ok(200)));
    assert_eq!(build.action(), BuildAction::ReleaseFd { fd: 33 });
    build.advance(BuildReply::Done);
    build.advance(BuildReply::Bound(Ok(())));
    assert_eq!(
        build.action(),
        BuildAction::WrapTexture { image: 100, owner: TextureMemory::External },
    );
    build.advance(BuildReply::Done);
    assert_eq!(build.step, BuildStep::Finished { image: 100, memory: 200 });
    assert!(matches!(
        TextureImport::after_building(build),
        TextureImport::Imported { image: 100, memory: 200 }
    ));
}

#[test]
fn importer_describes_the_same_texture() {
    let desc = texture(TextureDimension::D2, 640, 480, 1);
    let exporting = started(create_exportable_texture(true, &desc)).descriptor;
    let importing = started(import_texture(true, 33, &exported(&desc))).descriptor;
    assert_eq!(importing.size, exporting.size);
    assert_eq!(importing.mip_level_count, exporting.mip_level_count);
    assert_eq!(importing.sample_count, exporting.sample_count);
    assert_eq!(importing.dimension, exporting.dimension);
    assert_eq!(importing.format, exporting.format);
    assert_eq!(importing.usage, exporting.usage);
    assert!(importing.view_formats.is_empty());
}

#[test]
fn build_without_image_fails_at_once() {
    let desc = texture(TextureDimension::D2, 2, 2, 1);
    let mut build = started(create_exportable_texture(true, &desc));
    build.advance(BuildReply::Image(Err(VkResult(-1))));
    assert_eq!(build.action(), BuildAction::Rest);
    assert!(matches!(
        build.outcome(),
        Some(Err(TextureShareError::Vulkan(VkResult(-1))))
    ));
}

#[test]
fn failed_build_leaves_nothing_behind() {
    let desc = texture(TextureDimension::D2, 2, 2, 1);
    let mut build = started(create_exportable_texture(true, &desc));
    build.advance(BuildReply::Image(Ok(100)));
    answer_memory(&mut build);
    build.advance(BuildReply::Allocation(Err(VkResult(-2))));
    assert_eq!(build.action(), BuildAction::DestroyImage { image: 100 });
    build.advance(BuildReply::Done);
    assert_eq!(build.step, BuildStep::Failed { cause: VkResult(-2) });

    let mut build = started(create_exportable_texture(true, &desc));
    build.advance(BuildReply::Image(Ok(100)));
    answer_memory(&mut build);
    build.advance(BuildReply::Allocation(Ok(200)));
    build.advance(BuildReply::Bound(Err(VkResult(-3))));
    assert_eq!(build.action(), BuildAction::FreeMemory { memory: 200 });
    build.advance(BuildReply::Done);
    assert_eq!(build.action(), BuildAction::DestroyImage { image: 100 });
    build.advance(BuildReply::Done);
    assert!(matches!(
        TextureImport::after_building(build),
        TextureImport::Refused(ExternalTextureImportError::TextureShareError(
            TextureShareError::Vulkan(VkResult(-3))
        ))
    ));
}

#[test]
fn other_devices_cannot_share() {
    let desc = texture(TextureDimension::D2, 2, 2, 1);
    assert!(matches!(
        create_exportable_texture(false, &desc),
        Err(TextureShareError::NotVulkan)
    ));
    assert!(matches!(
        import_texture(false, 3, &exported(&desc)),
        Err(TextureShareError::NotVulkan)
    ));
}

#[test]
fn exporter_hands_out_descriptor_and_metadata() {
    let desc = texture(TextureDimension::D2, 64, 32, 1);
    let requirements = MemoryRequirements { size: 8192, memory_type_bits: 0b100 };
    let types = memory(4, &[DEVICE_LOCAL, DEVICE_LOCAL, DEVICE_LOCAL, DEVICE_LOCAL]);
    match exporter_side(Ok((100, 200)), &desc, requirements, &types, Ok(11)) {
        Ok((fd, metadata)) => {
            assert_eq!(fd, 11);
            assert_eq!(metadata.image_fd, 11);
            assert_eq!(metadata.memory_type_index, 2);
        }
        Err(error) => panic!("{:?}", error),
    }
    assert!(matches!(
        exporter_side(Err(TextureShareError::NotVulkan), &desc, requirements, &types, Ok(11)),
        Err(TextureShareError::NotVulkan)
    ));
    assert!(matches!(
        exporter_side(Ok((100, 200)), &desc, requirements, &types, Err(VkResult(-10))),
        Err(TextureShareError::Vulkan(VkResult(-10)))
    ));
}

#[test]
fn importer_needs_the_descriptor() {
    let metadata = exported(&texture(TextureDimension::D2, 64, 32, 1));
    let build = started(importer_side(true, Ok(8), &metadata));
    assert_eq!(build.source, MemorySource::Imported { fd: 8, memory_type_index: 1 });
    assert!(matches!(
        importer_side(true, Err("gone".to_string()), &metadata),
        Err(TextureShareError::FdTransfer(_))
    ));
}

fn info(owner_pid: u32) -> ExternalTextureInfo {
    ExternalTextureInfo {
        owner_pid,
        texture_id: Some(7),
        inner: exported(&texture(TextureDimension::D2, 64, 32, 1)),
    }
}

#[test]
fn shared_texture_tells_who_made_it() {
    let metadata = exported(&texture(TextureDimension::D2, 64, 32, 1));
    let shared = ExternalTexture::new(4321, 55, (17, metadata), Some(7));
    assert_eq!(shared.texture(), 55);
    assert_eq!(shared.handle(), 17);
    assert_eq!(shared.info().owner_pid, 4321);
    assert_eq!(shared.info().texture_id, Some(7));
    assert_eq!(shared.info().inner.image_fd, 17);
    let copy = shared.info().clone();
    assert_eq!(copy.owner_pid, 4321);
    assert_eq!(copy.texture_id, Some(7));
}

#[test]
fn import_opens_the_owner() {
    assert!(matches!(
        ExternalTexture::import(&info(1234)),
        TextureImport::Opening { pid: 1234 }
    ));
    assert!(matches!(
        ExternalTexture::import(&info(i32::MAX as u32)),
        TextureImport::Opening { pid: i32::MAX }
    ));
    assert!(matches!(
        ExternalTexture::import(&info(0)),
        TextureImport::Refused(ExternalTextureImportError::InvalidPid)
    ));
}

#[test]
fn import_goes_on_as_long_as_it_can() {
    let info = info(1234);
    assert!(matches!(
        TextureImport::after_opening(&info, Ok(())),
        TextureImport::Fetching { fd: 17 }
    ));
    assert!(matches!(
        TextureImport::after_opening(&info, Err(Errno(3))),
        TextureImport::Refused(ExternalTextureImportError::Io(Errno(3)))
    ));
    match TextureImport::after_fetching(&info, true, Ok(40)) {
        TextureImport::Building(build) => {
            assert_eq!(build.source, MemorySource::Imported { fd: 40, memory_type_index: 1 });
            assert!(matches!(
                TextureImport::after_building(build),
                TextureImport::Building(_)
            ));
        }
        _ => panic!("no build"),
    }
    assert!(matches!(
        TextureImport::after_fetching(&info, false, Ok(40)),
        TextureImport::Refused(ExternalTextureImportError::TextureShareError(
            TextureShareError::NotVulkan
        ))
    ));
    assert!(matches!(
        TextureImport::after_fetching(&info, true, Err("gone".to_string())),
        TextureImport::Refused(ExternalTextureImportError::TextureShareError(
            TextureShareError::FdTransfer(_)
        ))
    ));
}
