use ash::vk;
use editor_link::texture_format::{
    is_shareable, wgpu_format_to_vk, AstcBlock, AstcChannel, TextureFormat,
};
use editor_link::vulkan;

fn stored_as(format: TextureFormat, expected: vk::Format) {
    assert!(is_shareable(format));
    assert_eq!(wgpu_format_to_vk(format), expected.as_raw(), "{:?}", format);
}

fn astc_stored_as(block: AstcBlock, srgb: vk::Format, linear: vk::Format, hdr: vk::Format) {
    stored_as(TextureFormat::Astc { block, channel: AstcChannel::UnormSrgb }, srgb);
    stored_as(TextureFormat::Astc { block, channel: AstcChannel::Unorm }, linear);
    stored_as(TextureFormat::Astc { block, channel: AstcChannel::Hdr }, hdr);
}

#[test]
fn plain_formats_have_the_numbers_of_vulkan() {
    stored_as(TextureFormat::R8Unorm, vk::Format::R8_UNORM);
    stored_as(TextureFormat::R8Snorm, vk::Format::R8_SNORM);
    stored_as(TextureFormat::R8Uint, vk::Format::R8_UINT);
    stored_as(TextureFormat::R8Sint, vk::Format::R8_SINT);
    stored_as(TextureFormat::R16Uint, vk::Format::R16_UINT);
    stored_as(TextureFormat::R16Sint, vk::Format::R16_SINT);
    stored_as(TextureFormat::R16Unorm, vk::Format::R16_UNORM);
    stored_as(TextureFormat::R16Snorm, vk::Format::R16_SNORM);
    stored_as(TextureFormat::R16Float, vk::Format::R16_SFLOAT);
    stored_as(TextureFormat::Rg8Unorm, vk::Format::R8G8_UNORM);
    stored_as(TextureFormat::Rg8Snorm, vk::Format::R8G8_SNORM);
    stored_as(TextureFormat::Rg8Uint, vk::Format::R8G8_UINT);
    stored_as(TextureFormat::Rg8Sint, vk::Format::R8G8_SINT);
    stored_as(TextureFormat::R32Uint, vk::Format::R32_UINT);
    stored_as(TextureFormat::R32Sint, vk::Format::R32_SINT);
    stored_as(TextureFormat::R32Float, vk::Format::R32_SFLOAT);
    stored_as(TextureFormat::Rg16Uint, vk::Format::R16G16_UINT);
    stored_as(TextureFormat::Rg16Sint, vk::Format::R16G16_SINT);
    stored_as(TextureFormat::Rg16Unorm, vk::Format::R16G16_UNORM);
    stored_as(TextureFormat::Rg16Snorm, vk::Format::R16G16_SNORM);
    stored_as(TextureFormat::Rg16Float, vk::Format::R16G16_SFLOAT);
    stored_as(TextureFormat::Rgba8Unorm, vk::Format::R8G8B8A8_UNORM);
    stored_as(TextureFormat::Rgba8UnormSrgb, vk::Format::R8G8B8A8_SRGB);
    stored_as(TextureFormat::Rgba8Snorm, vk::Format::R8G8B8A8_SNORM);
    stored_as(TextureFormat::Rgba8Uint, vk::Format::R8G8B8A8_UINT);
    stored_as(TextureFormat::Rgba8Sint, vk::Format::R8G8B8A8_SINT);
    stored_as(TextureFormat::Bgra8Unorm, vk::Format::B8G8R8A8_UNORM);
    stored_as(TextureFormat::Bgra8UnormSrgb, vk::Format::B8G8R8A8_SRGB);
    stored_as(TextureFormat::Rg32Uint, vk::Format::R32G32_UINT);
    stored_as(TextureFormat::Rg32Sint, vk::Format::R32G32_SINT);
    stored_as(TextureFormat::Rg32Float, vk::Format::R32G32_SFLOAT);
    stored_as(TextureFormat::Rgba16Uint, vk::Format::R16G16B16A16_UINT);
    stored_as(TextureFormat::Rgba16Sint, vk::Format::R16G16B16A16_SINT);
    stored_as(TextureFormat::Rgba16Unorm, vk::Format::R16G16B16A16_UNORM);
    stored_as(TextureFormat::Rgba16Snorm, vk::Format::R16G16B16A16_SNORM);
    stored_as(TextureFormat::Rgba16Float, vk::Format::R16G16B16A16_SFLOAT);
    stored_as(TextureFormat::Rgba32Uint, vk::Format::R32G32B32A32_UINT);
    stored_as(TextureFormat::Rgba32Sint, vk::Format::R32G32B32A32_SINT);
    stored_as(TextureFormat::Rgba32Float, vk::Format::R32G32B32A32_SFLOAT);
    stored_as(TextureFormat::Depth16Unorm, vk::Format::D16_UNORM);
    stored_as(TextureFormat::Depth24Plus, vk::Format::X8_D24_UNORM_PACK32);
    stored_as(TextureFormat::Depth24PlusStencil8, vk::Format::D24_UNORM_S8_UINT);
    stored_as(TextureFormat::Depth32Float, vk::Format::D32_SFLOAT);
    stored_as(TextureFormat::Depth32FloatStencil8, vk::Format::D32_SFLOAT_S8_UINT);
    stored_as(TextureFormat::Bc1RgbaUnorm, vk::Format::BC1_RGBA_UNORM_BLOCK);
    stored_as(TextureFormat::Bc1RgbaUnormSrgb, vk::Format::BC1_RGBA_SRGB_BLOCK);
    stored_as(TextureFormat::Bc2RgbaUnorm, vk::Format::BC2_UNORM_BLOCK);
    stored_as(TextureFormat::Bc2RgbaUnormSrgb, vk::Format::BC2_SRGB_BLOCK);
    stored_as(TextureFormat::Bc3RgbaUnorm, vk::Format::BC3_UNORM_BLOCK);
    stored_as(TextureFormat::Bc3RgbaUnormSrgb, vk::Format::BC3_SRGB_BLOCK);
    stored_as(TextureFormat::Bc4RUnorm, vk::Format::BC4_UNORM_BLOCK);
    stored_as(TextureFormat::Bc4RSnorm, vk::Format::BC4_SNORM_BLOCK);
    stored_as(TextureFormat::Bc5RgUnorm, vk::Format::BC5_UNORM_BLOCK);
    stored_as(TextureFormat::Bc5RgSnorm, vk::Format::BC5_SNORM_BLOCK);
    stored_as(TextureFormat::Bc6hRgbUfloat, vk::Format::BC6H_UFLOAT_BLOCK);
    stored_as(TextureFormat::Bc6hRgbFloat, vk::Format::BC6H_SFLOAT_BLOCK);
    stored_as(TextureFormat::Bc7RgbaUnorm, vk::Format::BC7_UNORM_BLOCK);
    stored_as(TextureFormat::Bc7RgbaUnormSrgb, vk::Format::BC7_SRGB_BLOCK);
    stored_as(TextureFormat::Etc2Rgb8Unorm, vk::Format::ETC2_R8G8B8_UNORM_BLOCK);
    stored_as(TextureFormat::Etc2Rgb8UnormSrgb, vk::Format::ETC2_R8G8B8_SRGB_BLOCK);
    stored_as(TextureFormat::Etc2Rgb8A1Unorm, vk::Format::ETC2_R8G8B8A1_UNORM_BLOCK);
    stored_as(TextureFormat::Etc2Rgb8A1UnormSrgb, vk::Format::ETC2_R8G8B8A1_SRGB_BLOCK);
    stored_as(TextureFormat::Etc2Rgba8Unorm, vk::Format::ETC2_R8G8B8A8_UNORM_BLOCK);
    stored_as(TextureFormat::Etc2Rgba8UnormSrgb, vk::Format::ETC2_R8G8B8A8_SRGB_BLOCK);
    stored_as(TextureFormat::EacR11Unorm, vk::Format::EAC_R11_UNORM_BLOCK);
    stored_as(TextureFormat::EacR11Snorm, vk::Format::EAC_R11_SNORM_BLOCK);
    stored_as(TextureFormat::EacRg11Unorm, vk::Format::EAC_R11G11_UNORM_BLOCK);
    stored_as(TextureFormat::EacRg11Snorm, vk::Format::EAC_R11G11_SNORM_BLOCK);
}

#[test]
fn astc_formats_have_the_numbers_of_vulkan() {
    astc_stored_as(
        AstcBlock::B4x4,
        vk::Format::ASTC_4X4_SRGB_BLOCK,
        vk::Format::ASTC_4X4_UNORM_BLOCK,
        vk::Format::ASTC_4X4_SFLOAT_BLOCK,
    );
    astc_stored_as(
        AstcBlock::B5x4,
        vk::Format::ASTC_5X4_SRGB_BLOCK,
        vk::Format::ASTC_5X4_UNORM_BLOCK,
        vk::Format::ASTC_5X4_SFLOAT_BLOCK,
    );
    astc_stored_as(
        AstcBlock::B5x5,
        vk::Format::ASTC_5X5_SRGB_BLOCK,
        vk::Format::ASTC_5X5_UNORM_BLOCK,
        vk::Format::ASTC_5X5_SFLOAT_BLOCK,
    );
    astc_stored_as(
        AstcBlock::B6x5,
        vk::Format::ASTC_6X5_SRGB_BLOCK,
        vk::Format::ASTC_6X5_UNORM_BLOCK,
        vk::Format::ASTC_6X5_SFLOAT_BLOCK,
    );
    astc_stored_as(
        AstcBlock::B6x6,
        vk::Format::ASTC_6X6_SRGB_BLOCK,
        vk::Format::ASTC_6X6_UNORM_BLOCK,
        vk::Format::ASTC_6X6_SFLOAT_BLOCK,
    );
    astc_stored_as(
        AstcBlock::B8x5,
        vk::Format::ASTC_8X5_SRGB_BLOCK,
        vk::Format::ASTC_8X5_UNORM_BLOCK,
        vk::Format::ASTC_8X5_SFLOAT_BLOCK,
    );
    astc_stored_as(
        AstcBlock::B8x6,
        vk::Format::ASTC_8X6_SRGB_BLOCK,
        vk::Format::ASTC_8X6_UNORM_BLOCK,
        vk::Format::ASTC_8X6_SFLOAT_BLOCK,
    );
    astc_stored_as(
        AstcBlock::B8x8,
        vk::Format::ASTC_8X8_SRGB_BLOCK,
        vk::Format::ASTC_8X8_UNORM_BLOCK,
        vk::Format::ASTC_8X8_SFLOAT_BLOCK,
    );
    astc_stored_as(
        AstcBlock::B10x5,
        vk::Format::ASTC_10X5_SRGB_BLOCK,
        vk::Format::ASTC_10X5_UNORM_BLOCK,
        vk::Format::ASTC_10X5_SFLOAT_BLOCK,
    );
    astc_stored_as(
        AstcBlock::B10x6,
        vk::Format::ASTC_10X6_SRGB_BLOCK,
        vk::Format::ASTC_10X6_UNORM_BLOCK,
        vk::Format::ASTC_10X6_SFLOAT_BLOCK,
    );
    astc_stored_as(
        AstcBlock::B10x8,
        vk::Format::ASTC_10X8_SRGB_BLOCK,
        vk::Format::ASTC_10X8_UNORM_BLOCK,
        vk::Format::ASTC_10X8_SFLOAT_BLOCK,
    );
    astc_stored_as(
        AstcBlock::B10x10,
        vk::Format::ASTC_10X10_SRGB_BLOCK,
        vk::Format::ASTC_10X10_UNORM_BLOCK,
        vk::Format::ASTC_10X10_SFLOAT_BLOCK,
    );
    astc_stored_as(
        AstcBlock::B12x10,
        vk::Format::ASTC_12X10_SRGB_BLOCK,
        vk::Format::ASTC_12X10_UNORM_BLOCK,
        vk::Format::ASTC_12X10_SFLOAT_BLOCK,
    );
    astc_stored_as(
        AstcBlock::B12x12,
        vk::Format::ASTC_12X12_SRGB_BLOCK,
        vk::Format::ASTC_12X12_UNORM_BLOCK,
        vk::Format::ASTC_12X12_SFLOAT_BLOCK,
    );
}

#[test]
fn some_formats_cannot_be_shared() {
    let formats = [
        TextureFormat::Rgb9e5Ufloat,
        TextureFormat::Rgb10a2Uint,
        TextureFormat::Rgb10a2Unorm,
        TextureFormat::Rg11b10Ufloat,
        TextureFormat::R64Uint,
        TextureFormat::Stencil8,
        TextureFormat::NV12,
        TextureFormat::P010,
    ];
    for format in formats {
        assert!(!is_shareable(format), "{:?}", format);
    }
}

#[test]
fn formats_are_told_apart_by_their_numbers() {
    let block = AstcBlock::B8x6;
    let linear = wgpu_format_to_vk(TextureFormat::Astc { block, channel: AstcChannel::Unorm });
    let hdr = wgpu_format_to_vk(TextureFormat::Astc { block, channel: AstcChannel::Hdr });
    let srgb = wgpu_format_to_vk(TextureFormat::Astc { block, channel: AstcChannel::UnormSrgb });
    assert_eq!(hdr, 1_000_066_006);
    assert_ne!(linear, hdr);
    assert_ne!(srgb, hdr);
    assert_ne!(linear, srgb);
    assert_ne!(
        wgpu_format_to_vk(TextureFormat::Rgba8Unorm),
        wgpu_format_to_vk(TextureFormat::Rgba8UnormSrgb),
    );
}

#[test]
fn numbers_of_images_are_those_of_vulkan() {
    assert_eq!(vulkan::IMAGE_TYPE_1D, vk::ImageType::TYPE_1D.as_raw());
    assert_eq!(vulkan::IMAGE_TYPE_2D, vk::ImageType::TYPE_2D.as_raw());
    assert_eq!(vulkan::IMAGE_TYPE_3D, vk::ImageType::TYPE_3D.as_raw());
    assert_eq!(vulkan::IMAGE_TILING_OPTIMAL, vk::ImageTiling::OPTIMAL.as_raw());
    assert_eq!(vulkan::SHARING_MODE_EXCLUSIVE, vk::SharingMode::EXCLUSIVE.as_raw());
    assert_eq!(vulkan::IMAGE_LAYOUT_UNDEFINED, vk::ImageLayout::UNDEFINED.as_raw());
    assert_eq!(vulkan::IMAGE_USAGE_TRANSFER_SRC, vk::ImageUsageFlags::TRANSFER_SRC.as_raw());
    assert_eq!(vulkan::IMAGE_USAGE_TRANSFER_DST, vk::ImageUsageFlags::TRANSFER_DST.as_raw());
    assert_eq!(vulkan::IMAGE_USAGE_SAMPLED, vk::ImageUsageFlags::SAMPLED.as_raw());
    assert_eq!(vulkan::IMAGE_USAGE_STORAGE, vk::ImageUsageFlags::STORAGE.as_raw());
    assert_eq!(
        vulkan::IMAGE_USAGE_COLOR_ATTACHMENT,
        vk::ImageUsageFlags::COLOR_ATTACHMENT.as_raw(),
    );
    assert_eq!(
        vulkan::EXTERNAL_MEMORY_OPAQUE_FD,
        vk::ExternalMemoryHandleTypeFlags::OPAQUE_FD.as_raw(),
    );
    assert_eq!(
        vulkan::MEMORY_PROPERTY_DEVICE_LOCAL,
        vk::MemoryPropertyFlags::DEVICE_LOCAL.as_raw(),
    );
    assert_eq!(vulkan::MAX_MEMORY_TYPES as usize, vk::MAX_MEMORY_TYPES);
}
