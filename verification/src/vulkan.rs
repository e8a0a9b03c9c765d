//! Vulkan's numbering of the formats, flags and codes that texture sharing uses.

use vstd::prelude::*;

verus! {

pub const FORMAT_R8_UNORM: i32 = 9;

pub const FORMAT_R8_SNORM: i32 = 10;

pub const FORMAT_R8_UINT: i32 = 13;

pub const FORMAT_R8_SINT: i32 = 14;

pub const FORMAT_R8G8_UNORM: i32 = 16;

pub const FORMAT_R8G8_SNORM: i32 = 17;

pub const FORMAT_R8G8_UINT: i32 = 20;

pub const FORMAT_R8G8_SINT: i32 = 21;

pub const FORMAT_R8G8B8A8_UNORM: i32 = 37;

pub const FORMAT_R8G8B8A8_SNORM: i32 = 38;

pub const FORMAT_R8G8B8A8_UINT: i32 = 41;

pub const FORMAT_R8G8B8A8_SINT: i32 = 42;

pub const FORMAT_R8G8B8A8_SRGB: i32 = 43;

pub const FORMAT_B8G8R8A8_UNORM: i32 = 44;

pub const FORMAT_B8G8R8A8_SRGB: i32 = 50;

pub const FORMAT_R16_UNORM: i32 = 70;

pub const FORMAT_R16_SNORM: i32 = 71;

pub const FORMAT_R16_UINT: i32 = 74;

pub const FORMAT_R16_SINT: i32 = 75;

pub const FORMAT_R16_SFLOAT: i32 = 76;

pub const FORMAT_R16G16_UNORM: i32 = 77;

pub const FORMAT_R16G16_SNORM: i32 = 78;

pub const FORMAT_R16G16_UINT: i32 = 81;

pub const FORMAT_R16G16_SINT: i32 = 82;

pub const FORMAT_R16G16_SFLOAT: i32 = 83;

pub const FORMAT_R16G16B16A16_UNORM: i32 = 91;

pub const FORMAT_R16G16B16A16_SNORM: i32 = 92;

pub const FORMAT_R16G16B16A16_UINT: i32 = 95;

pub const FORMAT_R16G16B16A16_SINT: i32 = 96;

pub const FORMAT_R16G16B16A16_SFLOAT: i32 = 97;

pub const FORMAT_R32_UINT: i32 = 98;

pub const FORMAT_R32_SINT: i32 = 99;

pub const FORMAT_R32_SFLOAT: i32 = 100;

pub const FORMAT_R32G32_UINT: i32 = 101;

pub const FORMAT_R32G32_SINT: i32 = 102;

pub const FORMAT_R32G32_SFLOAT: i32 = 103;

pub const FORMAT_R32G32B32A32_UINT: i32 = 107;

pub const FORMAT_R32G32B32A32_SINT: i32 = 108;

pub const FORMAT_R32G32B32A32_SFLOAT: i32 = 109;

pub const FORMAT_D16_UNORM: i32 = 124;

pub const FORMAT_X8_D24_UNORM_PACK32: i32 = 125;

pub const FORMAT_D32_SFLOAT: i32 = 126;

pub const FORMAT_D24_UNORM_S8_UINT: i32 = 129;

pub const FORMAT_D32_SFLOAT_S8_UINT: i32 = 130;

pub const FORMAT_BC1_RGBA_UNORM_BLOCK: i32 = 133;

pub const FORMAT_BC1_RGBA_SRGB_BLOCK: i32 = 134;

pub const FORMAT_BC2_UNORM_BLOCK: i32 = 135;

pub const FORMAT_BC2_SRGB_BLOCK: i32 = 136;

pub const FORMAT_BC3_UNORM_BLOCK: i32 = 137;

pub const FORMAT_BC3_SRGB_BLOCK: i32 = 138;

pub const FORMAT_BC4_UNORM_BLOCK: i32 = 139;

pub const FORMAT_BC4_SNORM_BLOCK: i32 = 140;

pub const FORMAT_BC5_UNORM_BLOCK: i32 = 141;

pub const FORMAT_BC5_SNORM_BLOCK: i32 = 142;

pub const FORMAT_BC6H_UFLOAT_BLOCK: i32 = 143;

pub const FORMAT_BC6H_SFLOAT_BLOCK: i32 = 144;

pub const FORMAT_BC7_UNORM_BLOCK: i32 = 145;

pub const FORMAT_BC7_SRGB_BLOCK: i32 = 146;

pub const FORMAT_ETC2_R8G8B8_UNORM_BLOCK: i32 = 147;

pub const FORMAT_ETC2_R8G8B8_SRGB_BLOCK: i32 = 148;

pub const FORMAT_ETC2_R8G8B8A1_UNORM_BLOCK: i32 = 149;

pub const FORMAT_ETC2_R8G8B8A1_SRGB_BLOCK: i32 = 150;

pub const FORMAT_ETC2_R8G8B8A8_UNORM_BLOCK: i32 = 151;

pub const FORMAT_ETC2_R8G8B8A8_SRGB_BLOCK: i32 = 152;

pub const FORMAT_EAC_R11_UNORM_BLOCK: i32 = 153;

pub const FORMAT_EAC_R11_SNORM_BLOCK: i32 = 154;

pub const FORMAT_EAC_R11G11_UNORM_BLOCK: i32 = 155;

pub const FORMAT_EAC_R11G11_SNORM_BLOCK: i32 = 156;

/// The first of the ASTC formats. Each block size has two numbers, the linear one and then the sRGB
/// one, and the block sizes follow each other from the smallest to the largest.
pub const FORMAT_ASTC_4X4_UNORM_BLOCK: i32 = 157;

/// The first of the ASTC formats of high dynamic range, one for each block size in the same order.
pub const FORMAT_ASTC_4X4_SFLOAT_BLOCK: i32 = 1_000_066_000;

pub const IMAGE_TYPE_1D: i32 = 0;

pub const IMAGE_TYPE_2D: i32 = 1;

pub const IMAGE_TYPE_3D: i32 = 2;

pub const IMAGE_TILING_OPTIMAL: i32 = 0;

pub const SHARING_MODE_EXCLUSIVE: i32 = 0;

pub const IMAGE_LAYOUT_UNDEFINED: i32 = 0;

pub const IMAGE_USAGE_TRANSFER_SRC: u32 = 1;

pub const IMAGE_USAGE_TRANSFER_DST: u32 = 2;

pub const IMAGE_USAGE_SAMPLED: u32 = 4;

pub const IMAGE_USAGE_STORAGE: u32 = 8;

pub const IMAGE_USAGE_COLOR_ATTACHMENT: u32 = 16;

pub const EXTERNAL_MEMORY_OPAQUE_FD: u32 = 1;

pub const MEMORY_PROPERTY_DEVICE_LOCAL: u32 = 1;

/// How many memory types a device can have.
pub const MAX_MEMORY_TYPES: u32 = 32;

} // verus!
