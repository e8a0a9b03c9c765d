//! The texture formats, and the Vulkan format that each one is stored in.

use crate::vulkan::{
    FORMAT_R8_UNORM, FORMAT_R8_SNORM, FORMAT_R8_UINT, FORMAT_R8_SINT, FORMAT_R8G8_UNORM,
    FORMAT_R8G8_SNORM, FORMAT_R8G8_UINT, FORMAT_R8G8_SINT, FORMAT_R8G8B8A8_UNORM,
    FORMAT_R8G8B8A8_SNORM, FORMAT_R8G8B8A8_UINT, FORMAT_R8G8B8A8_SINT, FORMAT_R8G8B8A8_SRGB,
    FORMAT_B8G8R8A8_UNORM, FORMAT_B8G8R8A8_SRGB, FORMAT_R16_UNORM, FORMAT_R16_SNORM,
    FORMAT_R16_UINT, FORMAT_R16_SINT, FORMAT_R16_SFLOAT, FORMAT_R16G16_UNORM,
    FORMAT_R16G16_SNORM, FORMAT_R16G16_UINT, FORMAT_R16G16_SINT, FORMAT_R16G16_SFLOAT,
    FORMAT_R16G16B16A16_UNORM, FORMAT_R16G16B16A16_SNORM, FORMAT_R16G16B16A16_UINT,
    FORMAT_R16G16B16A16_SINT, FORMAT_R16G16B16A16_SFLOAT, FORMAT_R32_UINT, FORMAT_R32_SINT,
    FORMAT_R32_SFLOAT, FORMAT_R32G32_UINT, FORMAT_R32G32_SINT, FORMAT_R32G32_SFLOAT,
    FORMAT_R32G32B32A32_UINT, FORMAT_R32G32B32A32_SINT, FORMAT_R32G32B32A32_SFLOAT,
    FORMAT_D16_UNORM, FORMAT_X8_D24_UNORM_PACK32, FORMAT_D32_SFLOAT, FORMAT_D24_UNORM_S8_UINT,
    FORMAT_D32_SFLOAT_S8_UINT, FORMAT_BC1_RGBA_UNORM_BLOCK, FORMAT_BC1_RGBA_SRGB_BLOCK,
    FORMAT_BC2_UNORM_BLOCK, FORMAT_BC2_SRGB_BLOCK, FORMAT_BC3_UNORM_BLOCK, FORMAT_BC3_SRGB_BLOCK,
    FORMAT_BC4_UNORM_BLOCK, FORMAT_BC4_SNORM_BLOCK, FORMAT_BC5_UNORM_BLOCK,
    FORMAT_BC5_SNORM_BLOCK, FORMAT_BC6H_UFLOAT_BLOCK, FORMAT_BC6H_SFLOAT_BLOCK,
    FORMAT_BC7_UNORM_BLOCK, FORMAT_BC7_SRGB_BLOCK, FORMAT_ETC2_R8G8B8_UNORM_BLOCK,
    FORMAT_ETC2_R8G8B8_SRGB_BLOCK, FORMAT_ETC2_R8G8B8A1_UNORM_BLOCK,
    FORMAT_ETC2_R8G8B8A1_SRGB_BLOCK, FORMAT_ETC2_R8G8B8A8_UNORM_BLOCK,
    FORMAT_ETC2_R8G8B8A8_SRGB_BLOCK, FORMAT_EAC_R11_UNORM_BLOCK, FORMAT_EAC_R11_SNORM_BLOCK,
    FORMAT_EAC_R11G11_UNORM_BLOCK, FORMAT_EAC_R11G11_SNORM_BLOCK, FORMAT_ASTC_4X4_UNORM_BLOCK,
    FORMAT_ASTC_4X4_SFLOAT_BLOCK,
};
use vstd::prelude::*;

verus! {

/// Size of an ASTC block, in texels.
#[derive(Clone, Copy, PartialEq, Eq, Structural, Debug)]
pub enum AstcBlock {
    B4x4,
    B5x4,
    B5x5,
    B6x5,
    B6x6,
    B8x5,
    B8x6,
    B8x8,
    B10x5,
    B10x6,
    B10x8,
    B10x10,
    B12x10,
    B12x12,
}

/// What the channels of an ASTC texture hold.
#[derive(Clone, Copy, PartialEq, Eq, Structural, Debug)]
pub enum AstcChannel {
    Unorm,
    UnormSrgb,
    Hdr,
}

/// Format of a texture.
#[derive(Clone, Copy, PartialEq, Eq, Structural, Debug)]
pub enum TextureFormat {
    R8Unorm,
    R8Snorm,
    R8Uint,
    R8Sint,
    R16Uint,
    R16Sint,
    R16Unorm,
    R16Snorm,
    R16Float,
    Rg8Unorm,
    Rg8Snorm,
    Rg8Uint,
    Rg8Sint,
    R32Uint,
    R32Sint,
    R32Float,
    Rg16Uint,
    Rg16Sint,
    Rg16Unorm,
    Rg16Snorm,
    Rg16Float,
    Rgba8Unorm,
    Rgba8UnormSrgb,
    Rgba8Snorm,
    Rgba8Uint,
    Rgba8Sint,
    Bgra8Unorm,
    Bgra8UnormSrgb,
    Rgb9e5Ufloat,
    Rgb10a2Uint,
    Rgb10a2Unorm,
    Rg11b10Ufloat,
    R64Uint,
    Rg32Uint,
    Rg32Sint,
    Rg32Float,
    Rgba16Uint,
    Rgba16Sint,
    Rgba16Unorm,
    Rgba16Snorm,
    Rgba16Float,
    Rgba32Uint,
    Rgba32Sint,
    Rgba32Float,
    Stencil8,
    Depth16Unorm,
    Depth24Plus,
    Depth24PlusStencil8,
    Depth32Float,
    Depth32FloatStencil8,
    NV12,
    P010,
    Bc1RgbaUnorm,
    Bc1RgbaUnormSrgb,
    Bc2RgbaUnorm,
    Bc2RgbaUnormSrgb,
    Bc3RgbaUnorm,
    Bc3RgbaUnormSrgb,
    Bc4RUnorm,
    Bc4RSnorm,
    Bc5RgUnorm,
    Bc5RgSnorm,
    Bc6hRgbUfloat,
    Bc6hRgbFloat,
    Bc7RgbaUnorm,
    Bc7RgbaUnormSrgb,
    Etc2Rgb8Unorm,
    Etc2Rgb8UnormSrgb,
    Etc2Rgb8A1Unorm,
    Etc2Rgb8A1UnormSrgb,
    Etc2Rgba8Unorm,
    Etc2Rgba8UnormSrgb,
    EacR11Unorm,
    EacR11Snorm,
    EacRg11Unorm,
    EacRg11Snorm,
    Astc { block: AstcBlock, channel: AstcChannel },
}

/// Place of a block size in Vulkan's lists of ASTC formats.
pub open spec fn astc_block_index(block: AstcBlock) -> int {
    match block {
        AstcBlock::B4x4 => 0,
        AstcBlock::B5x4 => 1,
        AstcBlock::B5x5 => 2,
        AstcBlock::B6x5 => 3,
        AstcBlock::B6x6 => 4,
        AstcBlock::B8x5 => 5,
        AstcBlock::B8x6 => 6,
        AstcBlock::B8x8 => 7,
        AstcBlock::B10x5 => 8,
        AstcBlock::B10x6 => 9,
        AstcBlock::B10x8 => 10,
        AstcBlock::B10x10 => 11,
        AstcBlock::B12x10 => 12,
        AstcBlock::B12x12 => 13,
    }
}

/// The Vulkan format that a texture format is stored in. Formats without one cannot be shared.
///
/// Vulkan lists the linear and the sRGB format of each ASTC block size in turn, and the formats of
/// high dynamic range in a list of their own.
pub open spec fn vk_format(format: TextureFormat) -> Option<i32> {
    match format {
        TextureFormat::R8Unorm => Some(FORMAT_R8_UNORM),
        TextureFormat::R8Snorm => Some(FORMAT_R8_SNORM),
        TextureFormat::R8Uint => Some(FORMAT_R8_UINT),
        TextureFormat::R8Sint => Some(FORMAT_R8_SINT),
        TextureFormat::R16Uint => Some(FORMAT_R16_UINT),
        TextureFormat::R16Sint => Some(FORMAT_R16_SINT),
        TextureFormat::R16Unorm => Some(FORMAT_R16_UNORM),
        TextureFormat::R16Snorm => Some(FORMAT_R16_SNORM),
        TextureFormat::R16Float => Some(FORMAT_R16_SFLOAT),
        TextureFormat::Rg8Unorm => Some(FORMAT_R8G8_UNORM),
        TextureFormat::Rg8Snorm => Some(FORMAT_R8G8_SNORM),
        TextureFormat::Rg8Uint => Some(FORMAT_R8G8_UINT),
        TextureFormat::Rg8Sint => Some(FORMAT_R8G8_SINT),
        TextureFormat::R32Uint => Some(FORMAT_R32_UINT),
        TextureFormat::R32Sint => Some(FORMAT_R32_SINT),
        TextureFormat::R32Float => Some(FORMAT_R32_SFLOAT),
        TextureFormat::Rg16Uint => Some(FORMAT_R16G16_UINT),
        TextureFormat::Rg16Sint => Some(FORMAT_R16G16_SINT),
        TextureFormat::Rg16Unorm => Some(FORMAT_R16G16_UNORM),
        TextureFormat::Rg16Snorm => Some(FORMAT_R16G16_SNORM),
        TextureFormat::Rg16Float => Some(FORMAT_R16G16_SFLOAT),
        TextureFormat::Rgba8Unorm => Some(FORMAT_R8G8B8A8_UNORM),
        TextureFormat::Rgba8UnormSrgb => Some(FORMAT_R8G8B8A8_SRGB),
        TextureFormat::Rgba8Snorm => Some(FORMAT_R8G8B8A8_SNORM),
        TextureFormat::Rgba8Uint => Some(FORMAT_R8G8B8A8_UINT),
        TextureFormat::Rgba8Sint => Some(FORMAT_R8G8B8A8_SINT),
        TextureFormat::Bgra8Unorm => Some(FORMAT_B8G8R8A8_UNORM),
        TextureFormat::Bgra8UnormSrgb => Some(FORMAT_B8G8R8A8_SRGB),
        TextureFormat::Rg32Uint => Some(FORMAT_R32G32_UINT),
        TextureFormat::Rg32Sint => Some(FORMAT_R32G32_SINT),
        TextureFormat::Rg32Float => Some(FORMAT_R32G32_SFLOAT),
        TextureFormat::Rgba16Uint => Some(FORMAT_R16G16B16A16_UINT),
        TextureFormat::Rgba16Sint => Some(FORMAT_R16G16B16A16_SINT),
        TextureFormat::Rgba16Unorm => Some(FORMAT_R16G16B16A16_UNORM),
        TextureFormat::Rgba16Snorm => Some(FORMAT_R16G16B16A16_SNORM),
        TextureFormat::Rgba16Float => Some(FORMAT_R16G16B16A16_SFLOAT),
        TextureFormat::Rgba32Uint => Some(FORMAT_R32G32B32A32_UINT),
        TextureFormat::Rgba32Sint => Some(FORMAT_R32G32B32A32_SINT),
        TextureFormat::Rgba32Float => Some(FORMAT_R32G32B32A32_SFLOAT),
        TextureFormat::Depth16Unorm => Some(FORMAT_D16_UNORM),
        TextureFormat::Depth24Plus => Some(FORMAT_X8_D24_UNORM_PACK32),
        TextureFormat::Depth24PlusStencil8 => Some(FORMAT_D24_UNORM_S8_UINT),
        TextureFormat::Depth32Float => Some(FORMAT_D32_SFLOAT),
        TextureFormat::Depth32FloatStencil8 => Some(FORMAT_D32_SFLOAT_S8_UINT),
        TextureFormat::Bc1RgbaUnorm => Some(FORMAT_BC1_RGBA_UNORM_BLOCK),
        TextureFormat::Bc1RgbaUnormSrgb => Some(FORMAT_BC1_RGBA_SRGB_BLOCK),
        TextureFormat::Bc2RgbaUnorm => Some(FORMAT_BC2_UNORM_BLOCK),
        TextureFormat::Bc2RgbaUnormSrgb => Some(FORMAT_BC2_SRGB_BLOCK),
        TextureFormat::Bc3RgbaUnorm => Some(FORMAT_BC3_UNORM_BLOCK),
        TextureFormat::Bc3RgbaUnormSrgb => Some(FORMAT_BC3_SRGB_BLOCK),
        TextureFormat::Bc4RUnorm => Some(FORMAT_BC4_UNORM_BLOCK),
        TextureFormat::Bc4RSnorm => Some(FORMAT_BC4_SNORM_BLOCK),
        TextureFormat::Bc5RgUnorm => Some(FORMAT_BC5_UNORM_BLOCK),
        TextureFormat::Bc5RgSnorm => Some(FORMAT_BC5_SNORM_BLOCK),
        TextureFormat::Bc6hRgbUfloat => Some(FORMAT_BC6H_UFLOAT_BLOCK),
        TextureFormat::Bc6hRgbFloat => Some(FORMAT_BC6H_SFLOAT_BLOCK),
        TextureFormat::Bc7RgbaUnorm => Some(FORMAT_BC7_UNORM_BLOCK),
        TextureFormat::Bc7RgbaUnormSrgb => Some(FORMAT_BC7_SRGB_BLOCK),
        TextureFormat::Etc2Rgb8Unorm => Some(FORMAT_ETC2_R8G8B8_UNORM_BLOCK),
        TextureFormat::Etc2Rgb8UnormSrgb => Some(FORMAT_ETC2_R8G8B8_SRGB_BLOCK),
        TextureFormat::Etc2Rgb8A1Unorm => Some(FORMAT_ETC2_R8G8B8A1_UNORM_BLOCK),
        TextureFormat::Etc2Rgb8A1UnormSrgb => Some(FORMAT_ETC2_R8G8B8A1_SRGB_BLOCK),
        TextureFormat::Etc2Rgba8Unorm => Some(FORMAT_ETC2_R8G8B8A8_UNORM_BLOCK),
        TextureFormat::Etc2Rgba8UnormSrgb => Some(FORMAT_ETC2_R8G8B8A8_SRGB_BLOCK),
        TextureFormat::EacR11Unorm => Some(FORMAT_EAC_R11_UNORM_BLOCK),
        TextureFormat::EacR11Snorm => Some(FORMAT_EAC_R11_SNORM_BLOCK),
        TextureFormat::EacRg11Unorm => Some(FORMAT_EAC_R11G11_UNORM_BLOCK),
        TextureFormat::EacRg11Snorm => Some(FORMAT_EAC_R11G11_SNORM_BLOCK),
        TextureFormat::Astc { block, channel } => Some(
            match channel {
                AstcChannel::Unorm => FORMAT_ASTC_4X4_UNORM_BLOCK + 2 * astc_block_index(block),
                AstcChannel::UnormSrgb => FORMAT_ASTC_4X4_UNORM_BLOCK + 2 * astc_block_index(block)
                    + 1,
                AstcChannel::Hdr => FORMAT_ASTC_4X4_SFLOAT_BLOCK + astc_block_index(block),
            } as i32,
        ),
        _ => None,
    }
}

/// Whether a texture of this format can be shared.
pub fn is_shareable(format: TextureFormat) -> (shareable: bool)
    ensures
        shareable == vk_format(format) is Some,
{
    match format {
        TextureFormat::Rgb9e5Ufloat => false,
        TextureFormat::Rgb10a2Uint => false,
        TextureFormat::Rgb10a2Unorm => false,
        TextureFormat::Rg11b10Ufloat => false,
        TextureFormat::R64Uint => false,
        TextureFormat::Stencil8 => false,
        TextureFormat::NV12 => false,
        TextureFormat::P010 => false,
        _ => true,
    }
}

/// The Vulkan format of a texture format that can be shared.
pub fn wgpu_format_to_vk(format: TextureFormat) -> (raw: i32)
    requires
        vk_format(format) is Some,
    ensures
        Some(raw) == vk_format(format),
{
    match format {
        TextureFormat::R8Unorm => FORMAT_R8_UNORM,
        TextureFormat::R8Snorm => FORMAT_R8_SNORM,
        TextureFormat::R8Uint => FORMAT_R8_UINT,
        TextureFormat::R8Sint => FORMAT_R8_SINT,
        TextureFormat::R16Uint => FORMAT_R16_UINT,
        TextureFormat::R16Sint => FORMAT_R16_SINT,
        TextureFormat::R16Unorm => FORMAT_R16_UNORM,
        TextureFormat::R16Snorm => FORMAT_R16_SNORM,
        TextureFormat::R16Float => FORMAT_R16_SFLOAT,
        TextureFormat::Rg8Unorm => FORMAT_R8G8_UNORM,
        TextureFormat::Rg8Snorm => FORMAT_R8G8_SNORM,
        TextureFormat::Rg8Uint => FORMAT_R8G8_UINT,
        TextureFormat::Rg8Sint => FORMAT_R8G8_SINT,
        TextureFormat::R32Uint => FORMAT_R32_UINT,
        TextureFormat::R32Sint => FORMAT_R32_SINT,
        TextureFormat::R32Float => FORMAT_R32_SFLOAT,
        TextureFormat::Rg16Uint => FORMAT_R16G16_UINT,
        TextureFormat::Rg16Sint => FORMAT_R16G16_SINT,
        TextureFormat::Rg16Unorm => FORMAT_R16G16_UNORM,
        TextureFormat::Rg16Snorm => FORMAT_R16G16_SNORM,
        TextureFormat::Rg16Float => FORMAT_R16G16_SFLOAT,
        TextureFormat::Rgba8Unorm => FORMAT_R8G8B8A8_UNORM,
        TextureFormat::Rgba8UnormSrgb => FORMAT_R8G8B8A8_SRGB,
        TextureFormat::Rgba8Snorm => FORMAT_R8G8B8A8_SNORM,
        TextureFormat::Rgba8Uint => FORMAT_R8G8B8A8_UINT,
        TextureFormat::Rgba8Sint => FORMAT_R8G8B8A8_SINT,
        TextureFormat::Bgra8Unorm => FORMAT_B8G8R8A8_UNORM,
        TextureFormat::Bgra8UnormSrgb => FORMAT_B8G8R8A8_SRGB,
        TextureFormat::Rg32Uint => FORMAT_R32G32_UINT,
        TextureFormat::Rg32Sint => FORMAT_R32G32_SINT,
        TextureFormat::Rg32Float => FORMAT_R32G32_SFLOAT,
        TextureFormat::Rgba16Uint => FORMAT_R16G16B16A16_UINT,
        TextureFormat::Rgba16Sint => FORMAT_R16G16B16A16_SINT,
        TextureFormat::Rgba16Unorm => FORMAT_R16G16B16A16_UNORM,
        TextureFormat::Rgba16Snorm => FORMAT_R16G16B16A16_SNORM,
        TextureFormat::Rgba16Float => FORMAT_R16G16B16A16_SFLOAT,
        TextureFormat::Rgba32Uint => FORMAT_R32G32B32A32_UINT,
        TextureFormat::Rgba32Sint => FORMAT_R32G32B32A32_SINT,
        TextureFormat::Rgba32Float => FORMAT_R32G32B32A32_SFLOAT,
        TextureFormat::Depth16Unorm => FORMAT_D16_UNORM,
        TextureFormat::Depth24Plus => FORMAT_X8_D24_UNORM_PACK32,
        TextureFormat::Depth24PlusStencil8 => FORMAT_D24_UNORM_S8_UINT,
        TextureFormat::Depth32Float => FORMAT_D32_SFLOAT,
        TextureFormat::Depth32FloatStencil8 => FORMAT_D32_SFLOAT_S8_UINT,
        TextureFormat::Bc1RgbaUnorm => FORMAT_BC1_RGBA_UNORM_BLOCK,
        TextureFormat::Bc1RgbaUnormSrgb => FORMAT_BC1_RGBA_SRGB_BLOCK,
        TextureFormat::Bc2RgbaUnorm => FORMAT_BC2_UNORM_BLOCK,
        TextureFormat::Bc2RgbaUnormSrgb => FORMAT_BC2_SRGB_BLOCK,
        TextureFormat::Bc3RgbaUnorm => FORMAT_BC3_UNORM_BLOCK,
        TextureFormat::Bc3RgbaUnormSrgb => FORMAT_BC3_SRGB_BLOCK,
        TextureFormat::Bc4RUnorm => FORMAT_BC4_UNORM_BLOCK,
        TextureFormat::Bc4RSnorm => FORMAT_BC4_SNORM_BLOCK,
        TextureFormat::Bc5RgUnorm => FORMAT_BC5_UNORM_BLOCK,
        TextureFormat::Bc5RgSnorm => FORMAT_BC5_SNORM_BLOCK,
        TextureFormat::Bc6hRgbUfloat => FORMAT_BC6H_UFLOAT_BLOCK,
        TextureFormat::Bc6hRgbFloat => FORMAT_BC6H_SFLOAT_BLOCK,
        TextureFormat::Bc7RgbaUnorm => FORMAT_BC7_UNORM_BLOCK,
        TextureFormat::Bc7RgbaUnormSrgb => FORMAT_BC7_SRGB_BLOCK,
        TextureFormat::Etc2Rgb8Unorm => FORMAT_ETC2_R8G8B8_UNORM_BLOCK,
        TextureFormat::Etc2Rgb8UnormSrgb => FORMAT_ETC2_R8G8B8_SRGB_BLOCK,
        TextureFormat::Etc2Rgb8A1Unorm => FORMAT_ETC2_R8G8B8A1_UNORM_BLOCK,
        TextureFormat::Etc2Rgb8A1UnormSrgb => FORMAT_ETC2_R8G8B8A1_SRGB_BLOCK,
        TextureFormat::Etc2Rgba8Unorm => FORMAT_ETC2_R8G8B8A8_UNORM_BLOCK,
        TextureFormat::Etc2Rgba8UnormSrgb => FORMAT_ETC2_R8G8B8A8_SRGB_BLOCK,
        TextureFormat::EacR11Unorm => FORMAT_EAC_R11_UNORM_BLOCK,
        TextureFormat::EacR11Snorm => FORMAT_EAC_R11_SNORM_BLOCK,
        TextureFormat::EacRg11Unorm => FORMAT_EAC_R11G11_UNORM_BLOCK,
        TextureFormat::EacRg11Snorm => FORMAT_EAC_R11G11_SNORM_BLOCK,
        TextureFormat::Astc { block, channel } => {
            let index: i32 = match block {
                AstcBlock::B4x4 => 0,
                AstcBlock::B5x4 => 1,
                AstcBlock::B5x5 => 2,
                AstcBlock::B6x5 => 3,
                AstcBlock::B6x6 => 4,
                AstcBlock::B8x5 => 5,
                AstcBlock::B8x6 => 6,
                AstcBlock::B8x8 => 7,
                AstcBlock::B10x5 => 8,
                AstcBlock::B10x6 => 9,
                AstcBlock::B10x8 => 10,
                AstcBlock::B10x10 => 11,
                AstcBlock::B12x10 => 12,
                AstcBlock::B12x12 => 13,
            };
            match channel {
                AstcChannel::Unorm => FORMAT_ASTC_4X4_UNORM_BLOCK + 2 * index,
                AstcChannel::UnormSrgb => FORMAT_ASTC_4X4_UNORM_BLOCK + 2 * index + 1,
                AstcChannel::Hdr => FORMAT_ASTC_4X4_SFLOAT_BLOCK + index,
            }
        },
        _ => {
            assert(vk_format(format) is None);
            0
        },
    }
}

/// Two formats that can be shared have the same Vulkan format only if they are one format.
pub proof fn law_vk_format_tells_formats_apart(a: TextureFormat, b: TextureFormat)
    requires
        vk_format(a) is Some,
        vk_format(b) is Some,
    ensures
        vk_format(a) == vk_format(b) <==> a == b,
{
}

/// Formats that can be shared are told apart by the numbers that [`wgpu_format_to_vk`] gives them, so
/// that an importer knows the format that the exporter had.
pub proof fn law_shared_formats_have_numbers_of_their_own(
    a: TextureFormat,
    b: TextureFormat,
    a_shareable: bool,
    b_shareable: bool,
    a_number: i32,
    b_number: i32,
)
    requires
        call_ensures(is_shareable, (a,), a_shareable),
        call_ensures(is_shareable, (b,), b_shareable),
        call_ensures(wgpu_format_to_vk, (a,), a_number),
        call_ensures(wgpu_format_to_vk, (b,), b_number),
        a_shareable,
        b_shareable,
    ensures
        a_number == b_number <==> a == b,
        a_number > 0,
{
}

/// The ASTC formats of all block sizes can be shared. Of each, the sRGB number follows the linear one,
/// and the numbers of high dynamic range lie elsewhere.
pub proof fn law_astc_formats(
    block: AstcBlock,
    shareable: bool,
    linear: i32,
    srgb: i32,
    hdr: i32,
    channel: AstcChannel,
)
    requires
        call_ensures(is_shareable, (TextureFormat::Astc { block, channel },), shareable),
        call_ensures(
            wgpu_format_to_vk,
            (TextureFormat::Astc { block, channel: AstcChannel::Unorm },),
            linear,
        ),
        call_ensures(
            wgpu_format_to_vk,
            (TextureFormat::Astc { block, channel: AstcChannel::UnormSrgb },),
            srgb,
        ),
        call_ensures(
            wgpu_format_to_vk,
            (TextureFormat::Astc { block, channel: AstcChannel::Hdr },),
            hdr,
        ),
    ensures
        shareable,
        srgb == linear + 1,
        157 <= linear <= 183,
        2 * (hdr - 1_000_066_000) == linear - 157,
{
}

} // verus!
