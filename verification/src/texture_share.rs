//! What the exporter and the importer of a shared texture tell each other, and how sharing fails.

use crate::external_texture::{
    sample_count_to_vk, select_memory_type, selectable, selected_memory_type, vk_image_type,
    vk_image_usage, vk_sample_count, wgpu_dimension_to_image_type, wgpu_usage_to_vk,
    ImageCreateInfo, ImageExtent, MemoryProperties, MemoryRequirements, TextureDescriptor,
    TextureDimension, TextureSize,
};
use crate::texture_format::{vk_format, wgpu_format_to_vk, TextureFormat};
use crate::vulkan::{
    EXTERNAL_MEMORY_OPAQUE_FD, IMAGE_LAYOUT_UNDEFINED, IMAGE_TILING_OPTIMAL,
    MEMORY_PROPERTY_DEVICE_LOCAL, SHARING_MODE_EXCLUSIVE,
};
use vstd::prelude::*;

verus! {

/// Code that a Vulkan call returned.
#[derive(Clone, Copy, PartialEq, Eq, Structural, Debug)]
pub struct VkResult(pub i32);

/// Why a texture could not be exported or imported.
#[derive(Debug)]
pub enum TextureShareError {
    /// A Vulkan call did not succeed.
    Vulkan(VkResult),
    /// The device or the texture is not one of Vulkan's.
    NotVulkan,
    /// The texture does not own a memory allocation of its own, so there is none to export.
    NoDedicatedMemory,
    /// The file descriptor could not be moved between the processes.
    FdTransfer(String),
    /// Sharing on Windows is not implemented.
    Win32Stub,
}

/// The text that a Vulkan result code is shown as.
pub uninterp spec fn vk_result_text(code: i32) -> Seq<char>;

/// The `Debug` text of `ash::vk::Result`: a function of the code alone.
#[verifier::external_body]
fn show_vk_result(code: i32) -> (text: String)
    ensures
        text@ == vk_result_text(code),
{
    format!("{:?}", ash::vk::Result::from_raw(code))
}

impl From<VkResult> for TextureShareError {
    fn from(code: VkResult) -> (error: Self) {
        TextureShareError::Vulkan(code)
    }
}

impl vstd::std_specs::convert::FromSpecImpl<VkResult> for TextureShareError {
    open spec fn obeys_from_spec() -> bool {
        true
    }

    open spec fn from_spec(code: VkResult) -> Self {
        TextureShareError::Vulkan(code)
    }
}

/// The message of an error, given the text of each Vulkan result code.
pub open spec fn share_error_text(error: TextureShareError, vulkan_text: Seq<char>) -> Seq<char> {
    match error {
        TextureShareError::Vulkan(_) => "Vulkan error: "@ + vulkan_text,
        TextureShareError::NotVulkan => "device/texture is not backed by the Vulkan backend"@,
        TextureShareError::NoDedicatedMemory =>
            "texture has no dedicated VkDeviceMemory (sub-allocated or external memory)"@,
        TextureShareError::FdTransfer(cause) => "FD transfer failed: "@ + cause@,
        TextureShareError::Win32Stub => "Win32 import/export is not yet implemented"@,
    }
}

/// Code inside the error, and 0 where it has none.
pub open spec fn vulkan_code(error: TextureShareError) -> i32 {
    match error {
        TextureShareError::Vulkan(code) => code.0,
        _ => 0,
    }
}

impl TextureShareError {
    /// The message to show for the error.
    pub fn message(&self) -> (text: String)
        ensures
            text@ == share_error_text(*self, vk_result_text(vulkan_code(*self))),
    {
        match self {
            TextureShareError::Vulkan(code) => self.message_with(show_vk_result(code.0).as_str()),
            _ => {
                let text = self.message_with("");
                text
            },
        }
    }

    /// The message to show for the error, where the Vulkan result code has the given text.
    pub fn message_with(&self, vulkan_text: &str) -> (text: String)
        ensures
            text@ == share_error_text(*self, vulkan_text@),
    {
        match self {
            TextureShareError::Vulkan(_) => "Vulkan error: ".to_owned().concat(vulkan_text),
            TextureShareError::NotVulkan =>
                "device/texture is not backed by the Vulkan backend".to_owned(),
            TextureShareError::NoDedicatedMemory =>
                "texture has no dedicated VkDeviceMemory (sub-allocated or external memory)".to_owned(),
            TextureShareError::FdTransfer(cause) =>
                "FD transfer failed: ".to_owned().concat(cause.as_str()),
            TextureShareError::Win32Stub =>
                "Win32 import/export is not yet implemented".to_owned(),
        }
    }
}

/// Who owns the memory behind a texture.
#[derive(Clone, Copy, PartialEq, Eq, Structural, Debug)]
pub enum TextureMemory {
    /// The texture has an allocation of its own.
    Dedicated(u64),
    /// The texture has a part of a larger allocation.
    Allocation,
    /// The memory belongs to somebody else.
    External,
}

/// What the exporter of a texture tells the importer along with the file descriptor, so that the
/// importer can rebuild the image.
#[derive(Debug)]
pub struct TextureMetadata {
    pub image_type: i32,
    pub vk_format: i32,
    pub extent_width: u32,
    pub extent_height: u32,
    pub extent_depth: u32,
    pub mip_levels: u32,
    pub array_layers: u32,
    pub samples: u32,
    pub tiling: i32,
    pub vk_usage: u32,
    /// Size of the allocation in bytes.
    pub allocation_size: u64,
    /// Memory type that the exporter chose to allocate from.
    pub memory_type_index: u32,
    pub wgpu_format: TextureFormat,
    pub wgpu_dimension: TextureDimension,
    pub wgpu_mip_level_count: u32,
    pub wgpu_sample_count: u32,
    pub wgpu_usage: u32,
    pub wgpu_size: TextureSize,
    pub view_formats: Vec<TextureFormat>,
    /// Number of the file descriptor in the exporter's process.
    pub image_fd: i32,
}

/// Two pieces of metadata that say the same.
pub open spec fn same_metadata(a: TextureMetadata, b: TextureMetadata) -> bool {
    &&& a.view_formats@ == b.view_formats@
    &&& a == (TextureMetadata { view_formats: a.view_formats, ..b })
}

/// Copies a list of formats.
pub(crate) fn copy_formats(formats: &Vec<TextureFormat>) -> (copy: Vec<TextureFormat>)
    ensures
        copy@ == formats@,
{
    let mut copy: Vec<TextureFormat> = Vec::new();
    let mut i: usize = 0;
    while i < formats.len()
        invariant
            i <= formats@.len(),
            copy@ == formats@.take(i as int),
        decreases formats@.len() - i,
    {
        copy.push(formats[i]);
        i += 1;
        assert(copy@ =~= formats@.take(i as int));
    }
    assert(copy@ =~= formats@);
    copy
}

impl Clone for TextureMetadata {
    fn clone(&self) -> (copy: Self)
        ensures
            same_metadata(copy, *self),
    {
        TextureMetadata {
            image_type: self.image_type,
            vk_format: self.vk_format,
            extent_width: self.extent_width,
            extent_height: self.extent_height,
            extent_depth: self.extent_depth,
            mip_levels: self.mip_levels,
            array_layers: self.array_layers,
            samples: self.samples,
            tiling: self.tiling,
            vk_usage: self.vk_usage,
            allocation_size: self.allocation_size,
            memory_type_index: self.memory_type_index,
            wgpu_format: self.wgpu_format,
            wgpu_dimension: self.wgpu_dimension,
            wgpu_mip_level_count: self.wgpu_mip_level_count,
            wgpu_sample_count: self.wgpu_sample_count,
            wgpu_usage: self.wgpu_usage,
            wgpu_size: self.wgpu_size,
            view_formats: copy_formats(&self.view_formats),
            image_fd: self.image_fd,
        }
    }
}

/// The image that backs a texture whose memory can be exported.
pub open spec fn exportable_image_info(desc: TextureDescriptor) -> ImageCreateInfo {
    let size = desc.size;
    ImageCreateInfo {
        image_type: vk_image_type(desc.dimension),
        format: vk_format(desc.format)->0,
        extent: match desc.dimension {
            TextureDimension::D1 => ImageExtent { width: size.width, height: 1, depth: 1 },
            TextureDimension::D2 => ImageExtent {
                width: size.width,
                height: size.height,
                depth: 1,
            },
            TextureDimension::D3 => ImageExtent {
                width: size.width,
                height: size.height,
                depth: size.depth_or_array_layers,
            },
        },
        mip_levels: desc.mip_level_count,
        array_layers: if desc.dimension == TextureDimension::D3 {
            1
        } else {
            size.depth_or_array_layers
        },
        samples: desc.sample_count,
        tiling: IMAGE_TILING_OPTIMAL,
        usage: vk_image_usage(desc.usage),
        sharing_mode: SHARING_MODE_EXCLUSIVE,
        initial_layout: IMAGE_LAYOUT_UNDEFINED,
        handle_types: EXTERNAL_MEMORY_OPAQUE_FD,
    }
}

/// Parameters of the image that backs a texture whose memory can be exported.
pub fn exportable_image(desc: &TextureDescriptor) -> (info: ImageCreateInfo)
    requires
        vk_format(desc.format) is Some,
    ensures
        info == exportable_image_info(*desc),
{
    let format: i32 = wgpu_format_to_vk(desc.format);
    let (extent, array_layers) = match desc.dimension {
        TextureDimension::D1 => (
            ImageExtent { width: desc.size.width, height: 1, depth: 1 },
            desc.size.depth_or_array_layers,
        ),
        TextureDimension::D2 => (
            ImageExtent { width: desc.size.width, height: desc.size.height, depth: 1 },
            desc.size.depth_or_array_layers,
        ),
        TextureDimension::D3 => (
            ImageExtent {
                width: desc.size.width,
                height: desc.size.height,
                depth: desc.size.depth_or_array_layers,
            },
            1,
        ),
    };
    ImageCreateInfo {
        image_type: wgpu_dimension_to_image_type(desc.dimension),
        format,
        extent,
        mip_levels: desc.mip_level_count,
        array_layers,
        samples: desc.sample_count,
        tiling: IMAGE_TILING_OPTIMAL,
        usage: wgpu_usage_to_vk(desc.usage),
        sharing_mode: SHARING_MODE_EXCLUSIVE,
        initial_layout: IMAGE_LAYOUT_UNDEFINED,
        handle_types: EXTERNAL_MEMORY_OPAQUE_FD,
    }
}

/// The metadata of a texture: its own description, the parameters of its image, what the device
/// asked of its memory, the memory type that it was allocated from, and the file descriptor. A
/// sample count that Vulkan does not know is told as one sample.
pub open spec fn describes(
    metadata: TextureMetadata,
    texture: TextureDescriptor,
    requirements: MemoryRequirements,
    properties: MemoryProperties,
    fd: i32,
) -> bool {
    let image = exportable_image_info(texture);
    &&& metadata.image_type == image.image_type
    &&& metadata.vk_format == image.format
    &&& metadata.extent_width == image.extent.width
    &&& metadata.extent_height == image.extent.height
    &&& metadata.extent_depth == image.extent.depth
    &&& metadata.mip_levels == image.mip_levels
    &&& metadata.array_layers == image.array_layers
    &&& metadata.samples == vk_sample_count(texture.sample_count)
    &&& metadata.tiling == image.tiling
    &&& metadata.vk_usage == image.usage
    &&& metadata.allocation_size == requirements.size
    &&& metadata.memory_type_index == selected_memory_type(
        properties,
        requirements.memory_type_bits,
        MEMORY_PROPERTY_DEVICE_LOCAL,
    )
    &&& metadata.wgpu_format == texture.format
    &&& metadata.wgpu_dimension == texture.dimension
    &&& metadata.wgpu_mip_level_count == texture.mip_level_count
    &&& metadata.wgpu_sample_count == texture.sample_count
    &&& metadata.wgpu_usage == texture.usage
    &&& metadata.wgpu_size == texture.size
    &&& metadata.view_formats@.len() == 0
    &&& metadata.image_fd == fd
}

/// The memory to export. Only a texture of a Vulkan device that owns its allocation has one.
pub fn exportable_memory(
    device_is_vulkan: bool,
    texture_is_vulkan: bool,
    memory: TextureMemory,
) -> (allocation: Result<u64, TextureShareError>)
    ensures
        allocation == (if !device_is_vulkan || !texture_is_vulkan {
            Err(TextureShareError::NotVulkan)
        } else {
            match memory {
                TextureMemory::Dedicated(handle) => Ok(handle),
                _ => Err(TextureShareError::NoDedicatedMemory),
            }
        }),
{
    if !device_is_vulkan {
        return Err(TextureShareError::NotVulkan);
    }
    if !texture_is_vulkan {
        return Err(TextureShareError::NotVulkan);
    }
    match memory {
        TextureMemory::Dedicated(handle) => Ok(handle),
        TextureMemory::Allocation => Err(TextureShareError::NoDedicatedMemory),
        TextureMemory::External => Err(TextureShareError::NoDedicatedMemory),
    }
}

/// The file descriptor and the metadata to hand to an importer, once the device has answered the
/// request for a file descriptor of the texture's memory.
pub fn export_texture(
    texture: &TextureDescriptor,
    requirements: MemoryRequirements,
    properties: &MemoryProperties,
    fd: Result<i32, VkResult>,
) -> (exported: Result<(i32, TextureMetadata), TextureShareError>)
    requires
        fd is Ok ==> vk_format(texture.format) is Some,
        fd is Ok ==> selectable(
            *properties,
            requirements.memory_type_bits,
            MEMORY_PROPERTY_DEVICE_LOCAL,
        ),
    ensures
        match fd {
            Ok(raw) => {
                &&& exported is Ok
                &&& exported->Ok_0.0 == raw
                &&& describes(exported->Ok_0.1, *texture, requirements, *properties, raw)
            },
            Err(code) => exported == Err::<(i32, TextureMetadata), TextureShareError>(
                TextureShareError::Vulkan(code),
            ),
        },
{
    let image_fd: i32 = match fd {
        Ok(raw) => raw,
        Err(code) => {
            return Err(TextureShareError::from(code));
        },
    };
    let image = exportable_image(texture);
    let metadata = TextureMetadata {
        image_type: image.image_type,
        vk_format: image.format,
        extent_width: image.extent.width,
        extent_height: image.extent.height,
        extent_depth: image.extent.depth,
        mip_levels: image.mip_levels,
        array_layers: image.array_layers,
        samples: sample_count_to_vk(texture.sample_count),
        tiling: image.tiling,
        vk_usage: image.usage,
        allocation_size: requirements.size,
        memory_type_index: select_memory_type(
            properties,
            requirements.memory_type_bits,
            MEMORY_PROPERTY_DEVICE_LOCAL,
        ),
        wgpu_format: texture.format,
        wgpu_dimension: texture.dimension,
        wgpu_mip_level_count: texture.mip_level_count,
        wgpu_sample_count: texture.sample_count,
        wgpu_usage: texture.usage,
        wgpu_size: texture.size,
        view_formats: Vec::new(),
        image_fd,
    };
    Ok((image_fd, metadata))
}

/// The image that an importer rebuilds from metadata.
pub open spec fn imported_image_info(metadata: TextureMetadata) -> ImageCreateInfo {
    ImageCreateInfo {
        image_type: metadata.image_type,
        format: metadata.vk_format,
        extent: ImageExtent {
            width: metadata.extent_width,
            height: metadata.extent_height,
            depth: metadata.extent_depth,
        },
        mip_levels: metadata.mip_levels,
        array_layers: metadata.array_layers,
        samples: metadata.samples,
        tiling: metadata.tiling,
        usage: metadata.vk_usage,
        sharing_mode: SHARING_MODE_EXCLUSIVE,
        initial_layout: IMAGE_LAYOUT_UNDEFINED,
        handle_types: EXTERNAL_MEMORY_OPAQUE_FD,
    }
}

impl TextureMetadata {
    /// Size of the image.
    pub fn vk_extent(&self) -> (extent: ImageExtent)
        ensures
            extent == imported_image_info(*self).extent,
    {
        ImageExtent {
            width: self.extent_width,
            height: self.extent_height,
            depth: self.extent_depth,
        }
    }

    /// Parameters of the image that an importer builds.
    pub fn image_create_info(&self) -> (info: ImageCreateInfo)
        ensures
            info == imported_image_info(*self),
    {
        ImageCreateInfo {
            image_type: self.image_type,
            format: self.vk_format,
            extent: self.vk_extent(),
            mip_levels: self.mip_levels,
            array_layers: self.array_layers,
            samples: self.samples,
            tiling: self.tiling,
            usage: self.vk_usage,
            sharing_mode: SHARING_MODE_EXCLUSIVE,
            initial_layout: IMAGE_LAYOUT_UNDEFINED,
            handle_types: EXTERNAL_MEMORY_OPAQUE_FD,
        }
    }
}

/// The importer rebuilds exactly the image that the exporter built, for every texture whose sample
/// count Vulkan knows, and for no other texture.
pub proof fn law_importer_rebuilds_the_image(
    desc: TextureDescriptor,
    requirements: MemoryRequirements,
    properties: MemoryProperties,
    fd: i32,
    metadata: TextureMetadata,
)
    requires
        describes(metadata, desc, requirements, properties, fd),
    ensures
        imported_image_info(metadata) == exportable_image_info(desc) <==> vk_sample_count(
            desc.sample_count,
        ) == desc.sample_count,
{
    let rebuilt = imported_image_info(metadata);
    let built = exportable_image_info(desc);
    if rebuilt == built {
        assert(rebuilt.samples == built.samples);
    }
    assert(rebuilt.extent == built.extent);
}

/// Turns the outcome of fetching a file descriptor out of another process into the descriptor or
/// the error to report. A failure carries the system's own text.
pub fn steal_fd_via_pidfd(fetched: Result<i32, String>) -> (fd: Result<i32, TextureShareError>)
    ensures
        match fetched {
            Ok(raw) => fd == Ok::<i32, TextureShareError>(raw),
            Err(cause) => {
                &&& fd is Err
                &&& fd->Err_0 is FdTransfer
                &&& fd->Err_0->FdTransfer_0@ == "pidfd_getfd failed: "@ + cause@
            },
        },
{
    match fetched {
        Ok(raw) => Ok(raw),
        Err(cause) => Err(
            TextureShareError::FdTransfer(
                "pidfd_getfd failed: ".to_owned().concat(cause.as_str()),
            ),
        ),
    }
}

/// What fetching a file descriptor gives on a system other than Linux.
pub fn steal_fd_unavailable() -> (fd: Result<i32, TextureShareError>)
    ensures
        fd is Err,
        fd->Err_0 is FdTransfer,
        fd->Err_0->FdTransfer_0@ == "pidfd_getfd is only available on Linux"@,
{
    Err(TextureShareError::FdTransfer("pidfd_getfd is only available on Linux".to_owned()))
}

/// Exporting a texture on Windows is refused.
pub fn export_texture_win32(_texture: &TextureDescriptor) -> (exported: Result<
    u64,
    TextureShareError,
>)
    ensures
        exported == Err::<u64, TextureShareError>(TextureShareError::Win32Stub),
{
    Err(TextureShareError::Win32Stub)
}

/// Importing a texture on Windows is refused.
pub fn import_texture_win32(_handle: u64, _metadata: &TextureMetadata) -> (imported: Result<
    u64,
    TextureShareError,
>)
    ensures
        imported == Err::<u64, TextureShareError>(TextureShareError::Win32Stub),
{
    Err(TextureShareError::Win32Stub)
}

/// The image of a texture. It has the texture's format, levels, samples and uses, and its width. The
/// third number of the texture's size counts either slices or layers: together they are as many as
/// it says, a texture with fewer than three dimensions has one slice, and one with three has one
/// layer. A texture with one dimension has no height.
pub proof fn law_image_has_the_form_of_the_texture(
    desc: &TextureDescriptor,
    info: ImageCreateInfo,
    format: i32,
    usage: u32,
    image_type: i32,
)
    requires
        vk_format(desc.format) is Some,
        call_ensures(exportable_image, (desc,), info),
        call_ensures(wgpu_format_to_vk, (desc.format,), format),
        call_ensures(wgpu_usage_to_vk, (desc.usage,), usage),
        call_ensures(wgpu_dimension_to_image_type, (desc.dimension,), image_type),
    ensures
        info.format == format,
        info.usage == usage,
        info.image_type == image_type,
        info.mip_levels == desc.mip_level_count,
        info.samples == desc.sample_count,
        info.extent.width == desc.size.width,
        desc.dimension is D1 ==> info.extent.height == 1,
        !(desc.dimension is D1) ==> info.extent.height == desc.size.height,
        info.extent.depth * info.array_layers == desc.size.depth_or_array_layers,
        desc.dimension is D3 ==> info.array_layers == 1,
        !(desc.dimension is D3) ==> info.extent.depth == 1,
        info.tiling == 0,
        info.sharing_mode == 0,
        info.initial_layout == 0,
        info.handle_types == 1,
{
    let slices: int = info.extent.depth as int;
    let layers: int = info.array_layers as int;
    let count: int = desc.size.depth_or_array_layers as int;
    assert(slices * layers == count) by (nonlinear_arith)
        requires
            (slices == count && layers == 1) || (slices == 1 && layers == count),
    ;
}

/// What exporting tells an importer: the descriptor as it was given, all that the texture was asked
/// for, how large its memory is, and the memory type that was selected for it. Exporting fails exactly
/// where the device gives no descriptor, with the device's code.
pub proof fn law_export_tells_all_of_the_texture(
    texture: &TextureDescriptor,
    requirements: MemoryRequirements,
    properties: &MemoryProperties,
    fd: Result<i32, VkResult>,
    exported: Result<(i32, TextureMetadata), TextureShareError>,
    selected: u32,
    image: ImageCreateInfo,
)
    requires
        call_ensures(export_texture, (texture, requirements, properties, fd), exported),
        call_ensures(
            select_memory_type,
            (properties, requirements.memory_type_bits, MEMORY_PROPERTY_DEVICE_LOCAL),
            selected,
        ),
        call_ensures(exportable_image, (texture,), image),
    ensures
        exported is Ok <==> fd is Ok,
        fd is Err ==> exported->Err_0 == TextureShareError::Vulkan(fd->Err_0),
        fd is Ok ==> {
            let metadata = exported->Ok_0.1;
            &&& exported->Ok_0.0 == fd->Ok_0
            &&& metadata.image_fd == fd->Ok_0
            &&& metadata.allocation_size == requirements.size
            &&& metadata.memory_type_index == selected
            &&& metadata.wgpu_format == texture.format
            &&& metadata.wgpu_dimension == texture.dimension
            &&& metadata.wgpu_mip_level_count == texture.mip_level_count
            &&& metadata.wgpu_sample_count == texture.sample_count
            &&& metadata.wgpu_usage == texture.usage
            &&& metadata.wgpu_size == texture.size
            &&& metadata.view_formats@.len() == 0
            &&& metadata.image_type == image.image_type
            &&& metadata.vk_format == image.format
            &&& metadata.extent_width == image.extent.width
            &&& metadata.extent_height == image.extent.height
            &&& metadata.extent_depth == image.extent.depth
            &&& metadata.mip_levels == image.mip_levels
            &&& metadata.array_layers == image.array_layers
            &&& metadata.tiling == image.tiling
            &&& metadata.vk_usage == image.usage
        },
{
}

/// The image that an importer builds is the one that the metadata tells, and nothing in it is the
/// importer's own.
pub proof fn law_metadata_tells_the_image(
    metadata: &TextureMetadata,
    info: ImageCreateInfo,
    extent: ImageExtent,
)
    requires
        call_ensures(TextureMetadata::image_create_info, (metadata,), info),
        call_ensures(TextureMetadata::vk_extent, (metadata,), extent),
    ensures
        info.extent == extent,
        extent.width == metadata.extent_width,
        extent.height == metadata.extent_height,
        extent.depth == metadata.extent_depth,
        info.image_type == metadata.image_type,
        info.format == metadata.vk_format,
        info.mip_levels == metadata.mip_levels,
        info.array_layers == metadata.array_layers,
        info.samples == metadata.samples,
        info.tiling == metadata.tiling,
        info.usage == metadata.vk_usage,
        info.sharing_mode == 0,
        info.initial_layout == 0,
        info.handle_types == 1,
{
}

/// A copy of metadata agrees with it in everything.
pub proof fn law_copy_of_metadata_agrees(metadata: &TextureMetadata, copy: TextureMetadata)
    requires
        call_ensures(TextureMetadata::clone, (metadata,), copy),
    ensures
        copy.image_type == metadata.image_type,
        copy.vk_format == metadata.vk_format,
        copy.extent_width == metadata.extent_width,
        copy.extent_height == metadata.extent_height,
        copy.extent_depth == metadata.extent_depth,
        copy.mip_levels == metadata.mip_levels,
        copy.array_layers == metadata.array_layers,
        copy.samples == metadata.samples,
        copy.tiling == metadata.tiling,
        copy.vk_usage == metadata.vk_usage,
        copy.allocation_size == metadata.allocation_size,
        copy.memory_type_index == metadata.memory_type_index,
        copy.wgpu_format == metadata.wgpu_format,
        copy.wgpu_dimension == metadata.wgpu_dimension,
        copy.wgpu_mip_level_count == metadata.wgpu_mip_level_count,
        copy.wgpu_sample_count == metadata.wgpu_sample_count,
        copy.wgpu_usage == metadata.wgpu_usage,
        copy.wgpu_size == metadata.wgpu_size,
        copy.view_formats@ == metadata.view_formats@,
        copy.image_fd == metadata.image_fd,
{
}

/// Only memory of its own can be exported, and only from a texture of Vulkan's on a device of
/// Vulkan's. Where either is not one of Vulkan's, that is the error.
pub proof fn law_own_memory_can_be_exported(
    device_is_vulkan: bool,
    texture_is_vulkan: bool,
    memory: TextureMemory,
    allocation: Result<u64, TextureShareError>,
)
    requires
        call_ensures(
            exportable_memory,
            (device_is_vulkan, texture_is_vulkan, memory),
            allocation,
        ),
    ensures
        allocation is Ok <==> device_is_vulkan && texture_is_vulkan && memory is Dedicated,
        allocation is Ok ==> memory == TextureMemory::Dedicated(allocation->Ok_0),
        allocation is Err ==> {
            &&& allocation->Err_0 is NotVulkan <==> !(device_is_vulkan && texture_is_vulkan)
            &&& allocation->Err_0 is NoDedicatedMemory <==> device_is_vulkan && texture_is_vulkan
        },
{
}

/// The messages of errors that have a cause end with it, in full.
pub proof fn law_message_ends_with_the_cause(
    error: &TextureShareError,
    vulkan_text: &str,
    text: String,
    fetched: Result<i32, String>,
    fd: Result<i32, TextureShareError>,
)
    requires
        call_ensures(TextureShareError::message_with, (error, vulkan_text), text),
        call_ensures(steal_fd_via_pidfd, (fetched,), fd),
    ensures
        error is Vulkan ==> text@ == "Vulkan error: "@ + vulkan_text@,
        error is FdTransfer ==> text@ == "FD transfer failed: "@ + error->FdTransfer_0@,
        fd is Ok <==> fetched is Ok,
        fd is Ok ==> fetched == Ok::<i32, String>(fd->Ok_0),
        fd is Err ==> fd->Err_0 is FdTransfer && fd->Err_0->FdTransfer_0@
            == "pidfd_getfd failed: "@ + fetched->Err_0@,
{
}

} // verus!
