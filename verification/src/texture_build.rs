//! Building a shared texture out of raw Vulkan objects, one request to the device at a time.
//!
//! The device is asked for an image, then for memory, then to bind the two, and the result is
//! wrapped up as a texture. A request that fails undoes what came before it.

use crate::external_texture::{
    hal_usage, select_memory_type, selectable, selected_memory_type, vk_sample_count,
    wgpu_usage_to_hal_usage,
    ImageCreateInfo, MemoryProperties, MemoryRequirements, TextureDescriptor, TextureDimension,
    TextureSize,
};
use crate::texture_format::{vk_format, TextureFormat};
use crate::texture_share::{
    copy_formats, describes, export_texture, exportable_image, exportable_image_info,
    imported_image_info, law_importer_rebuilds_the_image, steal_fd_via_pidfd, TextureMemory,
    TextureMetadata, TextureShareError, VkResult,
};
use crate::vulkan::MEMORY_PROPERTY_DEVICE_LOCAL;
use vstd::prelude::*;

verus! {

/// Where the memory of the texture comes from.
#[derive(Clone, Copy, PartialEq, Eq, Structural, Debug)]
pub enum MemorySource {
    /// A new allocation that can be exported later.
    Exportable,
    /// The allocation behind a file descriptor of this process.
    Imported { fd: i32, memory_type_index: u32 },
}

/// Description of the texture for wgpu's hardware layer.
pub struct HalDescriptor {
    pub label: Option<String>,
    pub size: TextureSize,
    pub mip_level_count: u32,
    pub sample_count: u32,
    pub dimension: TextureDimension,
    pub format: TextureFormat,
    pub usage: u16,
    pub view_formats: Vec<TextureFormat>,
}

/// How far a build has come. Images and memory are known by their Vulkan handles.
#[derive(Clone, Copy, PartialEq, Eq, Structural, Debug)]
pub enum BuildStep {
    CreatingImage,
    QueryingMemory { image: u64 },
    Allocating { image: u64, allocation_size: u64, memory_type_index: u32 },
    ReleasingFd { image: u64, memory: u64 },
    Binding { image: u64, memory: u64 },
    FreeingMemory { image: u64, memory: u64, cause: VkResult },
    DestroyingImage { image: u64, cause: VkResult },
    Wrapping { image: u64, memory: u64 },
    Finished { image: u64, memory: u64 },
    Failed { cause: VkResult },
}

/// The next thing to do for a build.
#[derive(Clone, Copy, PartialEq, Eq, Structural, Debug)]
pub enum BuildAction {
    /// Create an image.
    CreateImage(ImageCreateInfo),
    /// Ask what the image requires of its memory, and what memory the device has.
    QueryMemory { image: u64 },
    /// Allocate memory: a new allocation that can be exported, or the one behind the descriptor.
    AllocateMemory { allocation_size: u64, memory_type_index: u32, import_fd: Option<i32> },
    /// Give up ownership of the descriptor, which the memory holds now, without closing it.
    ReleaseFd { fd: i32 },
    /// Bind the image to the memory.
    BindMemory { image: u64, memory: u64 },
    /// Free the memory.
    FreeMemory { memory: u64 },
    /// Destroy the image.
    DestroyImage { image: u64 },
    /// Make a texture of the image.
    WrapTexture { image: u64, owner: TextureMemory },
    /// Nothing is left to do.
    Rest,
}

/// What came of an action.
pub enum BuildReply {
    Image(Result<u64, VkResult>),
    Memory { requirements: MemoryRequirements, properties: MemoryProperties },
    Allocation(Result<u64, VkResult>),
    Bound(Result<(), VkResult>),
    Done,
}

/// A shared texture under construction.
pub struct TextureBuild {
    pub info: ImageCreateInfo,
    pub descriptor: HalDescriptor,
    pub source: MemorySource,
    pub step: BuildStep,
}

/// The memory type to allocate from: the importer was told, and the exporter prefers memory that
/// is local to the device.
pub open spec fn chosen_memory_type(
    source: MemorySource,
    requirements: MemoryRequirements,
    properties: MemoryProperties,
) -> u32 {
    match source {
        MemorySource::Exportable => selected_memory_type(
            properties,
            requirements.memory_type_bits,
            MEMORY_PROPERTY_DEVICE_LOCAL,
        ),
        MemorySource::Imported { memory_type_index, .. } => memory_type_index,
    }
}

/// Whether a reply answers the action that a build waits for.
pub open spec fn answers(source: MemorySource, step: BuildStep, reply: BuildReply) -> bool {
    match step {
        BuildStep::CreatingImage => reply is Image,
        BuildStep::QueryingMemory { .. } => {
            &&& reply is Memory
            &&& source is Exportable ==> selectable(
                reply->properties,
                reply->requirements.memory_type_bits,
                MEMORY_PROPERTY_DEVICE_LOCAL,
            )
        },
        BuildStep::Allocating { .. } => reply is Allocation,
        BuildStep::Binding { .. } => reply is Bound,
        BuildStep::ReleasingFd { .. } => reply is Done && source is Imported,
        BuildStep::FreeingMemory { .. } => reply is Done,
        BuildStep::DestroyingImage { .. } => reply is Done,
        BuildStep::Wrapping { .. } => reply is Done,
        BuildStep::Finished { .. } => false,
        BuildStep::Failed { .. } => false,
    }
}

/// The step that follows a reply.
pub open spec fn step_after(
    source: MemorySource,
    step: BuildStep,
    reply: BuildReply,
) -> BuildStep {
    match (step, reply) {
        (BuildStep::CreatingImage, BuildReply::Image(Ok(image))) => BuildStep::QueryingMemory {
            image,
        },
        (BuildStep::CreatingImage, BuildReply::Image(Err(cause))) => BuildStep::Failed { cause },
        (
            BuildStep::QueryingMemory { image },
            BuildReply::Memory { requirements, properties },
        ) => BuildStep::Allocating {
            image,
            allocation_size: requirements.size,
            memory_type_index: chosen_memory_type(source, requirements, properties),
        },
        (BuildStep::Allocating { image, .. }, BuildReply::Allocation(Ok(memory))) => {
            match source {
                MemorySource::Exportable => BuildStep::Binding { image, memory },
                MemorySource::Imported { .. } => BuildStep::ReleasingFd { image, memory },
            }
        },
        (BuildStep::Allocating { image, .. }, BuildReply::Allocation(Err(cause))) =>
            BuildStep::DestroyingImage { image, cause },
        (BuildStep::ReleasingFd { image, memory }, _) => BuildStep::Binding { image, memory },
        (BuildStep::Binding { image, memory }, BuildReply::Bound(Ok(()))) => BuildStep::Wrapping {
            image,
            memory,
        },
        (BuildStep::Binding { image, memory }, BuildReply::Bound(Err(cause))) =>
            BuildStep::FreeingMemory { image, memory, cause },
        (BuildStep::FreeingMemory { image, cause, .. }, _) => BuildStep::DestroyingImage {
            image,
            cause,
        },
        (BuildStep::DestroyingImage { cause, .. }, _) => BuildStep::Failed { cause },
        (BuildStep::Wrapping { image, memory }, _) => BuildStep::Finished { image, memory },
        _ => step,
    }
}

/// The action that a build waits for at a step.
pub open spec fn action_at(
    info: ImageCreateInfo,
    source: MemorySource,
    step: BuildStep,
) -> BuildAction {
    match step {
        BuildStep::CreatingImage => BuildAction::CreateImage(info),
        BuildStep::QueryingMemory { image } => BuildAction::QueryMemory { image },
        BuildStep::Allocating { allocation_size, memory_type_index, .. } =>
            BuildAction::AllocateMemory {
            allocation_size,
            memory_type_index,
            import_fd: match source {
                MemorySource::Exportable => None,
                MemorySource::Imported { fd, .. } => Some(fd),
            },
        },
        BuildStep::ReleasingFd { .. } => BuildAction::ReleaseFd { fd: source->fd },
        BuildStep::Binding { image, memory } => BuildAction::BindMemory { image, memory },
        BuildStep::FreeingMemory { memory, .. } => BuildAction::FreeMemory { memory },
        BuildStep::DestroyingImage { image, .. } => BuildAction::DestroyImage { image },
        BuildStep::Wrapping { image, memory } => BuildAction::WrapTexture {
            image,
            owner: match source {
                MemorySource::Exportable => TextureMemory::Dedicated(memory),
                MemorySource::Imported { .. } => TextureMemory::External,
            },
        },
        BuildStep::Finished { .. } => BuildAction::Rest,
        BuildStep::Failed { .. } => BuildAction::Rest,
    }
}

/// How many replies a build can still need.
pub open spec fn replies_left(step: BuildStep) -> nat {
    match step {
        BuildStep::CreatingImage => 7,
        BuildStep::QueryingMemory { .. } => 6,
        BuildStep::Allocating { .. } => 5,
        BuildStep::ReleasingFd { .. } => 4,
        BuildStep::Binding { .. } => 3,
        BuildStep::FreeingMemory { .. } => 2,
        BuildStep::DestroyingImage { .. } => 1,
        BuildStep::Wrapping { .. } => 1,
        BuildStep::Finished { .. } => 0,
        BuildStep::Failed { .. } => 0,
    }
}

impl TextureBuild {
    /// Descriptors are released only by builds that were given one.
    pub open spec fn wf(&self) -> bool {
        self.step is ReleasingFd ==> self.source is Imported
    }

    /// The action to carry out next.
    pub fn action(&self) -> (action: BuildAction)
        requires
            self.wf(),
        ensures
            action == action_at(self.info, self.source, self.step),
    {
        match self.step {
            BuildStep::CreatingImage => BuildAction::CreateImage(self.info),
            BuildStep::QueryingMemory { image } => BuildAction::QueryMemory { image },
            BuildStep::Allocating { image: _, allocation_size, memory_type_index } => {
                let import_fd = match self.source {
                    MemorySource::Exportable => None,
                    MemorySource::Imported { fd, memory_type_index: _ } => Some(fd),
                };
                BuildAction::AllocateMemory { allocation_size, memory_type_index, import_fd }
            },
            BuildStep::ReleasingFd { image: _, memory: _ } => match self.source {
                MemorySource::Imported { fd, memory_type_index: _ } => BuildAction::ReleaseFd {
                    fd,
                },
                MemorySource::Exportable => BuildAction::Rest,
            },
            BuildStep::Binding { image, memory } => BuildAction::BindMemory { image, memory },
            BuildStep::FreeingMemory { image: _, memory, cause: _ } => BuildAction::FreeMemory {
                memory,
            },
            BuildStep::DestroyingImage { image, cause: _ } => BuildAction::DestroyImage { image },
            BuildStep::Wrapping { image, memory } => {
                let owner = match self.source {
                    MemorySource::Exportable => TextureMemory::Dedicated(memory),
                    MemorySource::Imported { .. } => TextureMemory::External,
                };
                BuildAction::WrapTexture { image, owner }
            },
            BuildStep::Finished { .. } => BuildAction::Rest,
            BuildStep::Failed { .. } => BuildAction::Rest,
        }
    }

    /// Takes the reply to the current action and moves on.
    pub fn advance(&mut self, reply: BuildReply)
        requires
            old(self).wf(),
            answers(old(self).source, old(self).step, reply),
        ensures
            final(self).wf(),
            final(self).info == old(self).info,
            final(self).descriptor == old(self).descriptor,
            final(self).source == old(self).source,
            final(self).step == step_after(old(self).source, old(self).step, reply),
            replies_left(final(self).step) < replies_left(old(self).step),
    {
        let next = match (self.step, reply) {
            (BuildStep::CreatingImage, BuildReply::Image(Ok(image))) => BuildStep::QueryingMemory {
                image,
            },
            (BuildStep::CreatingImage, BuildReply::Image(Err(cause))) => BuildStep::Failed {
                cause,
            },
            (
                BuildStep::QueryingMemory { image },
                BuildReply::Memory { requirements, properties },
            ) => {
                let memory_type_index: u32 = match self.source {
                    MemorySource::Exportable => select_memory_type(
                        &properties,
                        requirements.memory_type_bits,
                        MEMORY_PROPERTY_DEVICE_LOCAL,
                    ),
                    MemorySource::Imported { fd: _, memory_type_index } => memory_type_index,
                };
                BuildStep::Allocating {
                    image,
                    allocation_size: requirements.size,
                    memory_type_index,
                }
            },
            (
                BuildStep::Allocating { image, allocation_size: _, memory_type_index: _ },
                BuildReply::Allocation(allocated),
            ) => match allocated {
                Ok(memory) => match self.source {
                    MemorySource::Exportable => BuildStep::Binding { image, memory },
                    MemorySource::Imported { .. } => BuildStep::ReleasingFd { image, memory },
                },
                Err(cause) => BuildStep::DestroyingImage { image, cause },
            },
            (BuildStep::ReleasingFd { image, memory }, _) => BuildStep::Binding { image, memory },
            (BuildStep::Binding { image, memory }, BuildReply::Bound(bound)) => match bound {
                Ok(()) => BuildStep::Wrapping { image, memory },
                Err(cause) => BuildStep::FreeingMemory { image, memory, cause },
            },
            (BuildStep::FreeingMemory { image, memory: _, cause }, _) =>
                BuildStep::DestroyingImage { image, cause },
            (BuildStep::DestroyingImage { image: _, cause }, _) => BuildStep::Failed { cause },
            (BuildStep::Wrapping { image, memory }, _) => BuildStep::Finished { image, memory },
            (step, _) => step,
        };
        self.step = next;
    }

    /// How the build ended, if it has: with the image and memory of the texture, or with an error.
    pub fn outcome(&self) -> (ended: Option<Result<(u64, u64), TextureShareError>>)
        ensures
            ended == (match self.step {
                BuildStep::Finished { image, memory } => Some(Ok((image, memory))),
                BuildStep::Failed { cause } => Some(Err(TextureShareError::Vulkan(cause))),
                _ => None,
            }),
    {
        match self.step {
            BuildStep::Finished { image, memory } => Some(Ok((image, memory))),
            BuildStep::Failed { cause } => Some(Err(TextureShareError::from(cause))),
            _ => None,
        }
    }
}

/// The label of a texture that came from another process.
pub open spec fn imported_label() -> Seq<char> {
    "imported-external-texture"@
}

/// Starts building a texture whose memory can be exported.
pub fn create_exportable_texture(
    device_is_vulkan: bool,
    desc: &TextureDescriptor,
) -> (started: Result<TextureBuild, TextureShareError>)
    requires
        device_is_vulkan ==> vk_format(desc.format) is Some,
    ensures
        !device_is_vulkan ==> started == Err::<TextureBuild, TextureShareError>(
            TextureShareError::NotVulkan,
        ),
        device_is_vulkan ==> {
            &&& started is Ok
            &&& started->Ok_0.wf()
            &&& started->Ok_0.step == BuildStep::CreatingImage
            &&& started->Ok_0.source == MemorySource::Exportable
            &&& started->Ok_0.info == exportable_image_info(*desc)
            &&& started->Ok_0.descriptor.label == desc.label
            &&& started->Ok_0.descriptor.size == desc.size
            &&& started->Ok_0.descriptor.mip_level_count == desc.mip_level_count
            &&& started->Ok_0.descriptor.sample_count == desc.sample_count
            &&& started->Ok_0.descriptor.dimension == desc.dimension
            &&& started->Ok_0.descriptor.format == desc.format
            &&& started->Ok_0.descriptor.usage == hal_usage(desc.usage)
            &&& started->Ok_0.descriptor.view_formats@ == desc.view_formats@
        },
{
    if !device_is_vulkan {
        return Err(TextureShareError::NotVulkan);
    }
    let label = match &desc.label {
        Some(label) => Some(label.clone()),
        None => None,
    };
    Ok(
        TextureBuild {
            info: exportable_image(desc),
            descriptor: HalDescriptor {
                label,
                size: desc.size,
                mip_level_count: desc.mip_level_count,
                sample_count: desc.sample_count,
                dimension: desc.dimension,
                format: desc.format,
                usage: wgpu_usage_to_hal_usage(desc.usage),
                view_formats: copy_formats(&desc.view_formats),
            },
            source: MemorySource::Exportable,
            step: BuildStep::CreatingImage,
        },
    )
}

/// Starts building a texture on the memory behind a file descriptor that an exporter made.
pub fn import_texture(
    device_is_vulkan: bool,
    fd: i32,
    metadata: &TextureMetadata,
) -> (started: Result<TextureBuild, TextureShareError>)
    ensures
        import_starts(device_is_vulkan, fd, *metadata, started),
{
    if !device_is_vulkan {
        return Err(TextureShareError::NotVulkan);
    }
    Ok(
        TextureBuild {
            info: metadata.image_create_info(),
            descriptor: HalDescriptor {
                label: Some("imported-external-texture".to_owned()),
                size: metadata.wgpu_size,
                mip_level_count: metadata.wgpu_mip_level_count,
                sample_count: metadata.wgpu_sample_count,
                dimension: metadata.wgpu_dimension,
                format: metadata.wgpu_format,
                usage: wgpu_usage_to_hal_usage(metadata.wgpu_usage),
                view_formats: copy_formats(&metadata.view_formats),
            },
            source: MemorySource::Imported { fd, memory_type_index: metadata.memory_type_index },
            step: BuildStep::CreatingImage,
        },
    )
}

/// How importing starts: refused where the device is not one of Vulkan's, and otherwise with the
/// image, the memory type and the description that the metadata gives.
pub open spec fn import_starts(
    device_is_vulkan: bool,
    fd: i32,
    metadata: TextureMetadata,
    started: Result<TextureBuild, TextureShareError>,
) -> bool {
    &&& !device_is_vulkan ==> started == Err::<TextureBuild, TextureShareError>(
        TextureShareError::NotVulkan,
    )
    &&& device_is_vulkan ==> {
        &&& started is Ok
        &&& started->Ok_0.wf()
        &&& started->Ok_0.step == BuildStep::CreatingImage
        &&& started->Ok_0.source == MemorySource::Imported {
            fd,
            memory_type_index: metadata.memory_type_index,
        }
        &&& started->Ok_0.info == imported_image_info(metadata)
        &&& started->Ok_0.descriptor.label is Some
        &&& started->Ok_0.descriptor.label->0@ == imported_label()
        &&& started->Ok_0.descriptor.size == metadata.wgpu_size
        &&& started->Ok_0.descriptor.mip_level_count == metadata.wgpu_mip_level_count
        &&& started->Ok_0.descriptor.sample_count == metadata.wgpu_sample_count
        &&& started->Ok_0.descriptor.dimension == metadata.wgpu_dimension
        &&& started->Ok_0.descriptor.format == metadata.wgpu_format
        &&& started->Ok_0.descriptor.usage == hal_usage(metadata.wgpu_usage)
        &&& started->Ok_0.descriptor.view_formats@ == metadata.view_formats@
    }
}

/// The importer's side of a share, once it has tried to fetch the exporter's file descriptor.
pub fn importer_side(
    device_is_vulkan: bool,
    fetched: Result<i32, String>,
    metadata: &TextureMetadata,
) -> (started: Result<TextureBuild, TextureShareError>)
    ensures
        match fetched {
            Ok(fd) => import_starts(device_is_vulkan, fd, *metadata, started),
            Err(cause) => {
                &&& started is Err
                &&& started->Err_0 is FdTransfer
                &&& started->Err_0->FdTransfer_0@ == "pidfd_getfd failed: "@ + cause@
            },
        },
{
    match steal_fd_via_pidfd(fetched) {
        Ok(fd) => import_texture(device_is_vulkan, fd, metadata),
        Err(error) => Err(error),
    }
}

/// What the importer builds is described as the exporter's texture is: it has the same size, levels,
/// samples, dimension, format and uses. Only the label is the importer's own, and the formats for
/// views are not passed on.
pub proof fn law_importer_describes_the_same_texture(
    desc: TextureDescriptor,
    requirements: MemoryRequirements,
    properties: MemoryProperties,
    exported_fd: i32,
    metadata: TextureMetadata,
    fd: i32,
    build: TextureBuild,
)
    requires
        describes(metadata, desc, requirements, properties, exported_fd),
        import_starts(true, fd, metadata, Ok(build)),
    ensures
        build.descriptor.label is Some,
        build.descriptor.label->0@ == imported_label(),
        build.descriptor.size == desc.size,
        build.descriptor.mip_level_count == desc.mip_level_count,
        build.descriptor.sample_count == desc.sample_count,
        build.descriptor.dimension == desc.dimension,
        build.descriptor.format == desc.format,
        build.descriptor.usage == hal_usage(desc.usage),
        build.descriptor.view_formats@.len() == 0,
{
}

/// The importer allocates from the memory type that the exporter allocated from, whatever the
/// importer is told of its own image and of the device.
pub proof fn law_importer_uses_the_selected_memory_type(
    desc: TextureDescriptor,
    requirements: MemoryRequirements,
    properties: MemoryProperties,
    exported_fd: i32,
    metadata: TextureMetadata,
    fd: i32,
    build: TextureBuild,
    other_requirements: MemoryRequirements,
    other_properties: MemoryProperties,
)
    requires
        describes(metadata, desc, requirements, properties, exported_fd),
        import_starts(true, fd, metadata, Ok(build)),
    ensures
        chosen_memory_type(build.source, other_requirements, other_properties)
            == chosen_memory_type(MemorySource::Exportable, requirements, properties),
{
}

/// The exporter's side of a share, once its texture was built, or could not be, and the device has
/// answered the request for a file descriptor of the texture's memory.
pub fn exporter_side(
    created: Result<(u64, u64), TextureShareError>,
    texture: &TextureDescriptor,
    requirements: MemoryRequirements,
    properties: &MemoryProperties,
    fd: Result<i32, VkResult>,
) -> (exported: Result<(i32, TextureMetadata), TextureShareError>)
    requires
        created is Ok && fd is Ok ==> vk_format(texture.format) is Some,
        created is Ok && fd is Ok ==> selectable(
            *properties,
            requirements.memory_type_bits,
            MEMORY_PROPERTY_DEVICE_LOCAL,
        ),
    ensures
        match (created, fd) {
            (Err(error), _) => exported == Err::<(i32, TextureMetadata), TextureShareError>(error),
            (Ok(_), Err(code)) => exported == Err::<(i32, TextureMetadata), TextureShareError>(
                TextureShareError::Vulkan(code),
            ),
            (Ok(_), Ok(raw)) => {
                &&& exported is Ok
                &&& exported->Ok_0.0 == raw
                &&& describes(exported->Ok_0.1, *texture, requirements, *properties, raw)
            },
        },
{
    match created {
        Ok(_) => export_texture(texture, requirements, properties, fd),
        Err(error) => Err(error),
    }
}

/// The Vulkan objects that exist on behalf of a build, and whether this process still owns the
/// file descriptor.
pub struct Ledger {
    pub images: Set<u64>,
    pub memories: Set<u64>,
    pub owns_fd: bool,
}

/// The ledger before the first action.
pub open spec fn opening_ledger(source: MemorySource) -> Ledger {
    Ledger { images: Set::empty(), memories: Set::empty(), owns_fd: source is Imported }
}

/// The ledger after an action and its reply.
pub open spec fn ledger_after(ledger: Ledger, action: BuildAction, reply: BuildReply) -> Ledger {
    match (action, reply) {
        (BuildAction::CreateImage(_), BuildReply::Image(Ok(image))) => Ledger {
            images: ledger.images.insert(image),
            ..ledger
        },
        (BuildAction::AllocateMemory { .. }, BuildReply::Allocation(Ok(memory))) => Ledger {
            memories: ledger.memories.insert(memory),
            ..ledger
        },
        (BuildAction::ReleaseFd { .. }, _) => Ledger { owns_fd: false, ..ledger },
        (BuildAction::FreeMemory { memory }, _) => Ledger {
            memories: ledger.memories.remove(memory),
            ..ledger
        },
        (BuildAction::DestroyImage { image }, _) => Ledger {
            images: ledger.images.remove(image),
            ..ledger
        },
        _ => ledger,
    }
}

/// The step and the ledger that a build reaches by a series of replies.
pub open spec fn reached(
    info: ImageCreateInfo,
    source: MemorySource,
    replies: Seq<BuildReply>,
) -> (BuildStep, Ledger)
    decreases replies.len(),
{
    if replies.len() == 0 {
        (BuildStep::CreatingImage, opening_ledger(source))
    } else {
        let (step, ledger) = reached(info, source, replies.drop_last());
        let reply = replies.last();
        (
            step_after(source, step, reply),
            ledger_after(ledger, action_at(info, source, step), reply),
        )
    }
}

/// Whether each of a series of replies answers the action that it comes after.
pub open spec fn all_answer(
    info: ImageCreateInfo,
    source: MemorySource,
    replies: Seq<BuildReply>,
) -> bool
    decreases replies.len(),
{
    replies.len() > 0 ==> {
        &&& all_answer(info, source, replies.drop_last())
        &&& answers(source, reached(info, source, replies.drop_last()).0, replies.last())
    }
}

/// What exists at each step of a build.
pub open spec fn accounted(source: MemorySource, step: BuildStep, ledger: Ledger) -> bool {
    match step {
        BuildStep::CreatingImage => {
            &&& ledger.images == Set::<u64>::empty()
            &&& ledger.memories == Set::<u64>::empty()
            &&& ledger.owns_fd == source is Imported
        },
        BuildStep::QueryingMemory { image } => {
            &&& ledger.images == set![image]
            &&& ledger.memories == Set::<u64>::empty()
            &&& ledger.owns_fd == source is Imported
        },
        BuildStep::Allocating { image, .. } => {
            &&& ledger.images == set![image]
            &&& ledger.memories == Set::<u64>::empty()
            &&& ledger.owns_fd == source is Imported
        },
        BuildStep::ReleasingFd { image, memory } => {
            &&& ledger.images == set![image]
            &&& ledger.memories == set![memory]
            &&& ledger.owns_fd == source is Imported
        },
        BuildStep::Binding { image, memory } => {
            &&& ledger.images == set![image]
            &&& ledger.memories == set![memory]
            &&& !ledger.owns_fd
        },
        BuildStep::FreeingMemory { image, memory, .. } => {
            &&& ledger.images == set![image]
            &&& ledger.memories == set![memory]
            &&& !ledger.owns_fd
        },
        BuildStep::DestroyingImage { image, .. } => {
            &&& ledger.images == set![image]
            &&& ledger.memories == Set::<u64>::empty()
        },
        BuildStep::Wrapping { image, memory } => {
            &&& ledger.images == set![image]
            &&& ledger.memories == set![memory]
            &&& !ledger.owns_fd
        },
        BuildStep::Finished { image, memory } => {
            &&& ledger.images == set![image]
            &&& ledger.memories == set![memory]
            &&& !ledger.owns_fd
        },
        BuildStep::Failed { .. } => {
            &&& ledger.images == Set::<u64>::empty()
            &&& ledger.memories == Set::<u64>::empty()
        },
    }
}

/// A build leaves nothing behind. Whatever the device replies, a build that fails has destroyed
/// the image and freed the memory that it made, and a build that ends well leaves exactly the image
/// and the memory of the texture. At every step in between, the objects that exist are those that
/// the step names.
pub proof fn law_build_leaves_nothing_behind(
    info: ImageCreateInfo,
    source: MemorySource,
    replies: Seq<BuildReply>,
)
    requires
        all_answer(info, source, replies),
    ensures
        accounted(
            source,
            reached(info, source, replies).0,
            reached(info, source, replies).1,
        ),
    decreases replies.len(),
{
    if replies.len() > 0 {
        law_build_leaves_nothing_behind(info, source, replies.drop_last());
        let (step, ledger) = reached(info, source, replies.drop_last());
        let next = ledger_after(ledger, action_at(info, source, step), replies.last());
        match step {
            BuildStep::CreatingImage => {
                if let BuildReply::Image(Ok(image)) = replies.last() {
                    assert(next.images =~= set![image]);
                }
            },
            BuildStep::Allocating { image, .. } => {
                if let BuildReply::Allocation(Ok(memory)) = replies.last() {
                    assert(next.memories =~= set![memory]);
                }
            },
            BuildStep::FreeingMemory { image, memory, .. } => {
                assert(next.memories =~= Set::<u64>::empty());
            },
            BuildStep::DestroyingImage { image, .. } => {
                assert(next.images =~= Set::<u64>::empty());
            },
            _ => {},
        }
    }
}

/// An importer gives up its file descriptor exactly when memory has been allocated on it: as long
/// as no allocation has succeeded the process still owns the descriptor, and once the build is
/// over it does not own it unless the allocation, or the image before it, was refused.
pub proof fn law_descriptor_changes_hands_once(
    info: ImageCreateInfo,
    source: MemorySource,
    replies: Seq<BuildReply>,
)
    requires
        all_answer(info, source, replies),
        source is Imported,
    ensures
        ({
            let (step, ledger) = reached(info, source, replies);
            let allocated = exists|i: int|
                0 <= i < replies.len() && #[trigger] replies[i] is Allocation && replies[i]->Allocation_0 is Ok;
            &&& step is Finished ==> allocated && !ledger.owns_fd
            &&& !allocated ==> ledger.owns_fd
            &&& allocated && !(step is ReleasingFd) ==> !ledger.owns_fd
        }),
    decreases replies.len(),
{
    if replies.len() > 0 {
        let before = replies.drop_last();
        law_descriptor_changes_hands_once(info, source, before);
        law_build_leaves_nothing_behind(info, source, before);
        let (step, ledger) = reached(info, source, before);
        assert forall|i: int| 0 <= i < before.len() implies before[i] == replies[i] by {}
        if exists|i: int|
            0 <= i < before.len() && #[trigger] before[i] is Allocation && before[i]->Allocation_0 is Ok {
            let i = choose|i: int|
                0 <= i < before.len() && #[trigger] before[i] is Allocation && before[i]->Allocation_0 is Ok;
            assert(replies[i] is Allocation);
        }
        assert(replies[replies.len() - 1] == replies.last());
    }
}

/// However the device replies, a build is over after at most seven replies.
pub proof fn law_build_ends(info: ImageCreateInfo, source: MemorySource, replies: Seq<BuildReply>)
    requires
        all_answer(info, source, replies),
    ensures
        replies.len() + replies_left(reached(info, source, replies).0) <= 7,
    decreases replies.len(),
{
    if replies.len() > 0 {
        law_build_ends(info, source, replies.drop_last());
    }
}

/// The actions that were asked for up to the last of a series of replies, one before each reply.
pub open spec fn asked(
    info: ImageCreateInfo,
    source: MemorySource,
    replies: Seq<BuildReply>,
) -> Seq<BuildAction>
    decreases replies.len(),
{
    if replies.len() == 0 {
        Seq::empty()
    } else {
        let before = replies.drop_last();
        asked(info, source, before).push(action_at(info, source, reached(info, source, before).0))
    }
}

/// One reply more takes a build one step further.
proof fn lemma_reply(
    info: ImageCreateInfo,
    source: MemorySource,
    replies: Seq<BuildReply>,
    reply: BuildReply,
)
    ensures
        ({
            let step = reached(info, source, replies).0;
            let more = replies.push(reply);
            &&& reached(info, source, more).0 == step_after(source, step, reply)
            &&& asked(info, source, more) == asked(info, source, replies).push(
                action_at(info, source, step),
            )
            &&& all_answer(info, source, more) == (all_answer(info, source, replies) && answers(
                source,
                step,
                reply,
            ))
        }),
{
    assert(replies.push(reply).drop_last() =~= replies);
}

/// The memory type that a build allocates from once it has heard of the memory: the one that the
/// importer was told, or else the one that was selected among those of the device.
pub open spec fn type_to_allocate(
    source: MemorySource,
    requirements: MemoryRequirements,
    properties: MemoryProperties,
) -> u32 {
    if source is Imported {
        source->memory_type_index
    } else {
        selected_memory_type(properties, requirements.memory_type_bits, 1)
    }
}

/// The descriptor that memory is allocated on: the importer's, and none for memory that is new.
pub open spec fn fd_to_allocate_on(source: MemorySource) -> Option<i32> {
    if source is Imported {
        Some(source->fd)
    } else {
        None
    }
}

/// The replies of a device that does all it is asked for, as far as the memory.
pub open spec fn willing_to_allocate(
    source: MemorySource,
    image: u64,
    requirements: MemoryRequirements,
    properties: MemoryProperties,
    memory: u64,
) -> Seq<BuildReply> {
    let allocated = seq![
        BuildReply::Image(Ok(image)),
        BuildReply::Memory { requirements, properties },
        BuildReply::Allocation(Ok(memory)),
    ];
    if source is Imported {
        allocated.push(BuildReply::Done)
    } else {
        allocated
    }
}

/// What is asked of a device that does all it is asked for, as far as the memory: an image, what
/// memory it needs, and that memory. An importer then gives up its descriptor, which the memory holds.
pub open spec fn asked_to_allocate(
    info: ImageCreateInfo,
    source: MemorySource,
    image: u64,
    requirements: MemoryRequirements,
    properties: MemoryProperties,
) -> Seq<BuildAction> {
    let allocating = seq![
        BuildAction::CreateImage(info),
        BuildAction::QueryMemory { image },
        BuildAction::AllocateMemory {
            allocation_size: requirements.size,
            memory_type_index: type_to_allocate(source, requirements, properties),
            import_fd: fd_to_allocate_on(source),
        },
    ];
    if source is Imported {
        allocating.push(BuildAction::ReleaseFd { fd: source->fd })
    } else {
        allocating
    }
}

/// As long as the device does what it is asked for, a build goes on to the point where the memory is
/// to be bound.
proof fn lemma_willing_to_allocate(
    info: ImageCreateInfo,
    source: MemorySource,
    image: u64,
    requirements: MemoryRequirements,
    properties: MemoryProperties,
    memory: u64,
)
    requires
        source is Exportable ==> selectable(
            properties,
            requirements.memory_type_bits,
            MEMORY_PROPERTY_DEVICE_LOCAL,
        ),
    ensures
        ({
            let replies = willing_to_allocate(source, image, requirements, properties, memory);
            &&& all_answer(info, source, replies)
            &&& reached(info, source, replies).0 == BuildStep::Binding { image, memory }
            &&& asked(info, source, replies) == asked_to_allocate(
                info,
                source,
                image,
                requirements,
                properties,
            )
        }),
{
    let none = Seq::<BuildReply>::empty();
    let one = none.push(BuildReply::Image(Ok(image)));
    let two = one.push(BuildReply::Memory { requirements, properties });
    let three = two.push(BuildReply::Allocation(Ok(memory)));
    lemma_reply(info, source, none, BuildReply::Image(Ok(image)));
    lemma_reply(info, source, one, BuildReply::Memory { requirements, properties });
    lemma_reply(info, source, two, BuildReply::Allocation(Ok(memory)));
    lemma_reply(info, source, three, BuildReply::Done);
    assert(willing_to_allocate(source, image, requirements, properties, memory) =~= if source
        is Imported {
        three.push(BuildReply::Done)
    } else {
        three
    });
    let acts = asked_to_allocate(info, source, image, requirements, properties);
    if source is Imported {
        assert(asked(info, source, three.push(BuildReply::Done)) =~= acts);
    } else {
        assert(asked(info, source, three) =~= acts);
    }
}

/// Where the device does all it is asked for, a build ends well, whether it exports or imports. After
/// the memory was allocated it is bound to the image, and after that the image is wrapped up as a
/// texture, which owns its memory if the memory is new. Nothing else is asked for.
pub proof fn law_willing_device_gives_a_texture(
    info: ImageCreateInfo,
    source: MemorySource,
    image: u64,
    requirements: MemoryRequirements,
    properties: MemoryProperties,
    memory: u64,
)
    requires
        source is Exportable ==> selectable(
            properties,
            requirements.memory_type_bits,
            MEMORY_PROPERTY_DEVICE_LOCAL,
        ),
    ensures
        ({
            let replies = willing_to_allocate(source, image, requirements, properties, memory)
                + seq![BuildReply::Bound(Ok(())), BuildReply::Done];
            let owner = if source is Imported {
                TextureMemory::External
            } else {
                TextureMemory::Dedicated(memory)
            };
            &&& all_answer(info, source, replies)
            &&& reached(info, source, replies).0 == BuildStep::Finished { image, memory }
            &&& asked(info, source, replies) == asked_to_allocate(
                info,
                source,
                image,
                requirements,
                properties,
            ) + seq![
                BuildAction::BindMemory { image, memory },
                BuildAction::WrapTexture { image, owner },
            ]
        }),
{
    let allocated = willing_to_allocate(source, image, requirements, properties, memory);
    let bound = allocated.push(BuildReply::Bound(Ok(())));
    lemma_willing_to_allocate(info, source, image, requirements, properties, memory);
    lemma_reply(info, source, allocated, BuildReply::Bound(Ok(())));
    lemma_reply(info, source, bound, BuildReply::Done);
    assert(allocated + seq![BuildReply::Bound(Ok(())), BuildReply::Done] =~= bound.push(
        BuildReply::Done,
    ));
    let owner = if source is Imported {
        TextureMemory::External
    } else {
        TextureMemory::Dedicated(memory)
    };
    assert(asked(info, source, bound.push(BuildReply::Done)) =~= asked_to_allocate(
        info,
        source,
        image,
        requirements,
        properties,
    ) + seq![
        BuildAction::BindMemory { image, memory },
        BuildAction::WrapTexture { image, owner },
    ]);
}

/// Where the device refuses, a build fails with the code that the device gave, and undoes what was
/// done: nothing if there is no image yet, the image if there is no memory, and the memory and then
/// the image if the two could not be bound.
pub proof fn law_refusing_device_is_cleaned_up_after(
    info: ImageCreateInfo,
    source: MemorySource,
    image: u64,
    requirements: MemoryRequirements,
    properties: MemoryProperties,
    memory: u64,
    cause: VkResult,
)
    requires
        source is Exportable ==> selectable(
            properties,
            requirements.memory_type_bits,
            MEMORY_PROPERTY_DEVICE_LOCAL,
        ),
    ensures
        ({
            let no_image = seq![BuildReply::Image(Err(cause))];
            let no_memory = seq![
                BuildReply::Image(Ok(image)),
                BuildReply::Memory { requirements, properties },
                BuildReply::Allocation(Err(cause)),
                BuildReply::Done,
            ];
            let not_bound = willing_to_allocate(source, image, requirements, properties, memory)
                + seq![BuildReply::Bound(Err(cause)), BuildReply::Done, BuildReply::Done];
            &&& all_answer(info, source, no_image)
            &&& reached(info, source, no_image).0 == BuildStep::Failed { cause }
            &&& asked(info, source, no_image) == seq![BuildAction::CreateImage(info)]
            &&& all_answer(info, source, no_memory)
            &&& reached(info, source, no_memory).0 == BuildStep::Failed { cause }
            &&& asked(info, source, no_memory) == seq![
                BuildAction::CreateImage(info),
                BuildAction::QueryMemory { image },
                BuildAction::AllocateMemory {
                    allocation_size: requirements.size,
                    memory_type_index: type_to_allocate(source, requirements, properties),
                    import_fd: fd_to_allocate_on(source),
                },
                BuildAction::DestroyImage { image },
            ]
            &&& all_answer(info, source, not_bound)
            &&& reached(info, source, not_bound).0 == BuildStep::Failed { cause }
            &&& asked(info, source, not_bound) == asked_to_allocate(
                info,
                source,
                image,
                requirements,
                properties,
            ) + seq![
                BuildAction::BindMemory { image, memory },
                BuildAction::FreeMemory { memory },
                BuildAction::DestroyImage { image },
            ]
        }),
{
    let none = Seq::<BuildReply>::empty();
    let refused = none.push(BuildReply::Image(Err(cause)));
    lemma_reply(info, source, none, BuildReply::Image(Err(cause)));
    assert(refused =~= seq![BuildReply::Image(Err(cause))]);
    assert(asked(info, source, refused) =~= seq![BuildAction::CreateImage(info)]);

    let one = none.push(BuildReply::Image(Ok(image)));
    let two = one.push(BuildReply::Memory { requirements, properties });
    let three = two.push(BuildReply::Allocation(Err(cause)));
    let four = three.push(BuildReply::Done);
    lemma_reply(info, source, none, BuildReply::Image(Ok(image)));
    lemma_reply(info, source, one, BuildReply::Memory { requirements, properties });
    lemma_reply(info, source, two, BuildReply::Allocation(Err(cause)));
    lemma_reply(info, source, three, BuildReply::Done);
    assert(four =~= seq![
        BuildReply::Image(Ok(image)),
        BuildReply::Memory { requirements, properties },
        BuildReply::Allocation(Err(cause)),
        BuildReply::Done,
    ]);
    assert(asked(info, source, four) =~= seq![
        BuildAction::CreateImage(info),
        BuildAction::QueryMemory { image },
        BuildAction::AllocateMemory {
            allocation_size: requirements.size,
            memory_type_index: type_to_allocate(source, requirements, properties),
            import_fd: fd_to_allocate_on(source),
        },
        BuildAction::DestroyImage { image },
    ]);

    let allocated = willing_to_allocate(source, image, requirements, properties, memory);
    let unbound = allocated.push(BuildReply::Bound(Err(cause)));
    let freed = unbound.push(BuildReply::Done);
    lemma_willing_to_allocate(info, source, image, requirements, properties, memory);
    lemma_reply(info, source, allocated, BuildReply::Bound(Err(cause)));
    lemma_reply(info, source, unbound, BuildReply::Done);
    lemma_reply(info, source, freed, BuildReply::Done);
    assert(allocated + seq![
        BuildReply::Bound(Err(cause)),
        BuildReply::Done,
        BuildReply::Done,
    ] =~= freed.push(BuildReply::Done));
    assert(asked(info, source, freed.push(BuildReply::Done)) =~= asked_to_allocate(
        info,
        source,
        image,
        requirements,
        properties,
    ) + seq![
        BuildAction::BindMemory { image, memory },
        BuildAction::FreeMemory { memory },
        BuildAction::DestroyImage { image },
    ]);
}

/// What was replied up to a step in which the image and the memory are there.
spec fn has_allocated(
    info: ImageCreateInfo,
    source: MemorySource,
    replies: Seq<BuildReply>,
    image: u64,
    memory: u64,
) -> bool {
    &&& replies.len() >= 3
    &&& replies[1] is Memory
    &&& source is Exportable ==> selectable(
        replies[1]->properties,
        replies[1]->requirements.memory_type_bits,
        MEMORY_PROPERTY_DEVICE_LOCAL,
    )
    &&& replies == willing_to_allocate(
        source,
        image,
        replies[1]->requirements,
        replies[1]->properties,
        memory,
    )
}

/// There is one way only to come to each step on the way to a texture.
proof fn lemma_way_to_the_texture(
    info: ImageCreateInfo,
    source: MemorySource,
    replies: Seq<BuildReply>,
)
    requires
        all_answer(info, source, replies),
    ensures
        match reached(info, source, replies).0 {
            BuildStep::CreatingImage => replies.len() == 0,
            BuildStep::QueryingMemory { image } => replies == seq![BuildReply::Image(Ok(image))],
            BuildStep::Allocating { image, .. } => {
                &&& replies.len() == 2
                &&& replies[0] == BuildReply::Image(Ok(image))
                &&& replies[1] is Memory
                &&& source is Exportable ==> selectable(
                    replies[1]->properties,
                    replies[1]->requirements.memory_type_bits,
                    MEMORY_PROPERTY_DEVICE_LOCAL,
                )
            },
            BuildStep::ReleasingFd { image, memory } => {
                &&& source is Imported
                &&& replies.len() == 3
                &&& replies[0] == BuildReply::Image(Ok(image))
                &&& replies[1] is Memory
                &&& replies[2] == BuildReply::Allocation(Ok(memory))
            },
            BuildStep::Binding { image, memory } => has_allocated(
                info,
                source,
                replies,
                image,
                memory,
            ),
            BuildStep::Wrapping { image, memory } => {
                &&& replies.len() > 0
                &&& replies.last() == BuildReply::Bound(Ok(()))
                &&& has_allocated(info, source, replies.drop_last(), image, memory)
            },
            BuildStep::Finished { image, memory } => {
                &&& replies.len() > 1
                &&& replies.last() == BuildReply::Done
                &&& replies.drop_last().last() == BuildReply::Bound(Ok(()))
                &&& has_allocated(info, source, replies.drop_last().drop_last(), image, memory)
            },
            _ => true,
        },
    decreases replies.len(),
{
    if replies.len() > 0 {
        let before = replies.drop_last();
        lemma_way_to_the_texture(info, source, before);
        let last = replies.last();
        assert(replies =~= before.push(last));
        match reached(info, source, replies).0 {
            BuildStep::QueryingMemory { image } => {
                assert(replies =~= seq![BuildReply::Image(Ok(image))]);
            },
            BuildStep::Binding { image, memory } => {
                assert(replies =~= willing_to_allocate(
                    source,
                    image,
                    replies[1]->requirements,
                    replies[1]->properties,
                    memory,
                ));
            },
            BuildStep::Wrapping { .. } => {
                assert(last->Bound_0->Ok_0 == ());
            },
            _ => {},
        }
    }
}

/// Every build that ended well, exporting or importing, has asked for exactly these things, in this
/// order: to create the image, to say what memory it needs, to allocate that memory, to give up the
/// descriptor if it was given one, to bind the image to the memory, and to wrap the image up. So the
/// memory of the texture was bound to its image once, after it was allocated and before the texture
/// was made.
pub proof fn law_finished_build_has_bound_its_memory(
    info: ImageCreateInfo,
    source: MemorySource,
    replies: Seq<BuildReply>,
    image: u64,
    memory: u64,
)
    requires
        all_answer(info, source, replies),
        reached(info, source, replies).0 == (BuildStep::Finished { image, memory }),
    ensures
        replies.len() >= 5,
        replies[1] is Memory,
        ({
            let actions = asked(info, source, replies);
            let bind = replies.len() - 2;
            &&& actions.len() == replies.len()
            &&& actions[0] == BuildAction::CreateImage(info)
            &&& actions[1] == BuildAction::QueryMemory { image }
            &&& actions[2] == BuildAction::AllocateMemory {
                allocation_size: replies[1]->requirements.size,
                memory_type_index: type_to_allocate(
                    source,
                    replies[1]->requirements,
                    replies[1]->properties,
                ),
                import_fd: fd_to_allocate_on(source),
            }
            &&& replies[2] == BuildReply::Allocation(Ok(memory))
            &&& source is Imported ==> bind == 4 && actions[3] == BuildAction::ReleaseFd {
                fd: source->fd,
            }
            &&& source is Exportable ==> bind == 3
            &&& actions[bind] == BuildAction::BindMemory { image, memory }
            &&& forall|i: int|
                #![trigger actions[i]]
                0 <= i < actions.len() && actions[i] is BindMemory ==> i == bind
            &&& actions[bind + 1] is WrapTexture
            &&& actions[bind + 1]->WrapTexture_image == image
        }),
{
    lemma_way_to_the_texture(info, source, replies);
    let allocated = replies.drop_last().drop_last();
    let requirements = allocated[1]->requirements;
    let properties = allocated[1]->properties;
    law_willing_device_gives_a_texture(info, source, image, requirements, properties, memory);
    assert(replies =~= allocated + seq![BuildReply::Bound(Ok(())), BuildReply::Done]);
}

/// A build waits for an action as long as it is not over, and rests as soon as it is. It is over
/// exactly if it has an outcome: the image and the memory of the texture, or the code that the device
/// gave.
pub proof fn law_build_rests_only_at_the_end(
    build: &TextureBuild,
    action: BuildAction,
    ended: Option<Result<(u64, u64), TextureShareError>>,
)
    requires
        build.wf(),
        call_ensures(TextureBuild::action, (build,), action),
        call_ensures(TextureBuild::outcome, (build,), ended),
    ensures
        action is Rest <==> build.step is Finished || build.step is Failed,
        action is Rest <==> ended is Some,
        ended is Some ==> (ended->0 is Ok <==> build.step is Finished),
        build.step is Finished ==> ended->0->Ok_0 == (
            build.step->Finished_image,
            build.step->Finished_memory,
        ),
        build.step is Failed ==> ended->0->Err_0 == TextureShareError::Vulkan(
            build.step->Failed_cause,
        ),
        action is BindMemory <==> build.step is Binding,
        action is BindMemory ==> action->BindMemory_image == build.step->Binding_image
            && action->BindMemory_memory == build.step->Binding_memory,
        action is CreateImage ==> action->CreateImage_0 == build.info,
{
}

/// A texture that is exported and imported again. The importer's build makes the image that the
/// exporter's build made, if its sample count is one that Vulkan knows. Both describe their texture
/// as it was asked for. Each is refused exactly where the device is not one of Vulkan's.
pub proof fn law_share_from_end_to_end(
    exporting_on_vulkan: bool,
    desc: &TextureDescriptor,
    exporting: Result<TextureBuild, TextureShareError>,
    requirements: MemoryRequirements,
    properties: &MemoryProperties,
    exported_fd: i32,
    exported: Result<(i32, TextureMetadata), TextureShareError>,
    importing_on_vulkan: bool,
    fd: i32,
    metadata: &TextureMetadata,
    importing: Result<TextureBuild, TextureShareError>,
)
    requires
        call_ensures(create_exportable_texture, (exporting_on_vulkan, desc), exporting),
        call_ensures(
            export_texture,
            (desc, requirements, properties, Ok::<i32, VkResult>(exported_fd)),
            exported,
        ),
        exported == Ok::<(i32, TextureMetadata), TextureShareError>((exported_fd, *metadata)),
        call_ensures(import_texture, (importing_on_vulkan, fd, metadata), importing),
    ensures
        exporting is Ok <==> exporting_on_vulkan,
        exporting is Err ==> exporting->Err_0 is NotVulkan,
        importing is Ok <==> importing_on_vulkan,
        importing is Err ==> importing->Err_0 is NotVulkan,
        metadata.image_fd == exported_fd,
        exporting is Ok ==> {
            let build = exporting->Ok_0;
            &&& build.step is CreatingImage
            &&& build.source is Exportable
            &&& build.descriptor.label == desc.label
            &&& build.descriptor.size == desc.size
            &&& build.descriptor.mip_level_count == desc.mip_level_count
            &&& build.descriptor.sample_count == desc.sample_count
            &&& build.descriptor.dimension == desc.dimension
            &&& build.descriptor.format == desc.format
            &&& build.descriptor.view_formats@ == desc.view_formats@
        },
        importing is Ok ==> {
            let build = importing->Ok_0;
            &&& build.step is CreatingImage
            &&& build.source is Imported
            &&& build.source->fd == fd
            &&& build.source->memory_type_index == metadata.memory_type_index
            &&& build.descriptor.size == desc.size
            &&& build.descriptor.mip_level_count == desc.mip_level_count
            &&& build.descriptor.sample_count == desc.sample_count
            &&& build.descriptor.dimension == desc.dimension
            &&& build.descriptor.format == desc.format
            &&& build.descriptor.view_formats@ == metadata.view_formats@
        },
        exporting is Ok && importing is Ok ==> {
            &&& exporting->Ok_0.descriptor.usage == importing->Ok_0.descriptor.usage
            &&& vk_sample_count(desc.sample_count) == desc.sample_count ==> importing->Ok_0.info
                == exporting->Ok_0.info
        },
{
    law_importer_rebuilds_the_image(*desc, requirements, *properties, exported_fd, *metadata);
}

/// The two sides of a share pass failures on: the exporter's side fails with the error of the build,
/// or else with the code that the device gave for the descriptor, and the importer's side fails where
/// the descriptor could not be fetched, and says why.
pub proof fn law_sides_of_a_share_pass_failures_on(
    created: Result<(u64, u64), TextureShareError>,
    texture: &TextureDescriptor,
    requirements: MemoryRequirements,
    properties: &MemoryProperties,
    fd: Result<i32, VkResult>,
    exported: Result<(i32, TextureMetadata), TextureShareError>,
    device_is_vulkan: bool,
    fetched: Result<i32, String>,
    metadata: &TextureMetadata,
    started: Result<TextureBuild, TextureShareError>,
)
    requires
        call_ensures(exporter_side, (created, texture, requirements, properties, fd), exported),
        call_ensures(importer_side, (device_is_vulkan, fetched, metadata), started),
    ensures
        exported is Ok <==> created is Ok && fd is Ok,
        created is Err ==> exported->Err_0 == created->Err_0,
        created is Ok && fd is Err ==> exported->Err_0 == TextureShareError::Vulkan(fd->Err_0),
        exported is Ok ==> exported->Ok_0.0 == fd->Ok_0 && exported->Ok_0.1.image_fd == fd->Ok_0,
        started is Ok <==> fetched is Ok && device_is_vulkan,
        started is Ok ==> started->Ok_0.source is Imported && started->Ok_0.source->fd
            == fetched->Ok_0,
        fetched is Ok && !device_is_vulkan ==> started->Err_0 is NotVulkan,
        fetched is Err ==> {
            let cause = fetched->Err_0@;
            &&& started->Err_0 is FdTransfer
            &&& started->Err_0->FdTransfer_0@.skip("pidfd_getfd failed: "@.len() as int) == cause
        },
{
    if fetched is Err {
        let text = started->Err_0->FdTransfer_0@;
        assert(text.skip("pidfd_getfd failed: "@.len() as int) =~= fetched->Err_0@);
    }
}

/// Every action but resting can be answered, by what can come of it and by nothing else. Only the
/// device's memory types have to be ones among which a choice can be made.
pub proof fn law_every_action_of_a_build_can_be_answered(
    build: &TextureBuild,
    action: BuildAction,
    reply: BuildReply,
)
    requires
        build.wf(),
        call_ensures(TextureBuild::action, (build,), action),
        reply is Memory && build.source is Exportable ==> selectable(
            reply->properties,
            reply->requirements.memory_type_bits,
            MEMORY_PROPERTY_DEVICE_LOCAL,
        ),
    ensures
        answers(build.source, build.step, reply) <==> {
            ||| action is CreateImage && reply is Image
            ||| action is QueryMemory && reply is Memory
            ||| action is AllocateMemory && reply is Allocation
            ||| action is BindMemory && reply is Bound
            ||| action is ReleaseFd && reply is Done
            ||| action is FreeMemory && reply is Done
            ||| action is DestroyImage && reply is Done
            ||| action is WrapTexture && reply is Done
        },
{
}

} // verus!
