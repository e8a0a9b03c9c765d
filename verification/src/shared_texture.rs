//! A texture that one process made and another one can import.

use crate::texture_build::{import_starts, importer_side, BuildStep, TextureBuild};
use crate::texture_share::{
    same_metadata, share_error_text, vk_result_text, vulkan_code, TextureMetadata, TextureShareError,
};
use vstd::prelude::*;

verus! {

/// Number that the system gave an error.
#[derive(Clone, Copy, PartialEq, Eq, Structural, Debug)]
pub struct Errno(pub i32);

/// Why a texture could not be imported.
#[derive(Debug)]
pub enum ExternalTextureImportError {
    /// The exporting process could not be opened.
    Io(Errno),
    /// The number of the exporting process is not one that a process can have.
    InvalidPid,
    /// The texture itself could not be shared.
    TextureShareError(TextureShareError),
}

impl From<Errno> for ExternalTextureImportError {
    fn from(errno: Errno) -> (error: Self) {
        ExternalTextureImportError::Io(errno)
    }
}

impl vstd::std_specs::convert::FromSpecImpl<Errno> for ExternalTextureImportError {
    open spec fn obeys_from_spec() -> bool {
        true
    }

    open spec fn from_spec(errno: Errno) -> Self {
        ExternalTextureImportError::Io(errno)
    }
}

impl From<TextureShareError> for ExternalTextureImportError {
    fn from(cause: TextureShareError) -> (error: Self) {
        ExternalTextureImportError::TextureShareError(cause)
    }
}

impl vstd::std_specs::convert::FromSpecImpl<TextureShareError> for ExternalTextureImportError {
    open spec fn obeys_from_spec() -> bool {
        true
    }

    open spec fn from_spec(cause: TextureShareError) -> Self {
        ExternalTextureImportError::TextureShareError(cause)
    }
}

impl ExternalTextureImportError {
    /// The message to show for the error. The system's own text for an error number is given.
    pub fn message(&self, io_text: &str) -> (text: String)
        ensures
            text@ == match *self {
                ExternalTextureImportError::Io(_) => "Io error: "@ + io_text@,
                ExternalTextureImportError::InvalidPid =>
                    "Invalid pid value in external texture info"@,
                ExternalTextureImportError::TextureShareError(cause) =>
                    "Texture share error: "@ + share_error_text(
                    cause,
                    vk_result_text(vulkan_code(cause)),
                ),
            },
    {
        match self {
            ExternalTextureImportError::Io(_) => "Io error: ".to_owned().concat(io_text),
            ExternalTextureImportError::InvalidPid =>
                "Invalid pid value in external texture info".to_owned(),
            ExternalTextureImportError::TextureShareError(cause) =>
                "Texture share error: ".to_owned().concat(cause.message().as_str()),
        }
    }
}

/// What a process tells another one about a texture that it shares.
#[derive(Debug)]
pub struct ExternalTextureInfo {
    /// The process that made the texture.
    pub owner_pid: u32,
    /// Number that the owner gave the texture.
    pub texture_id: Option<u64>,
    pub inner: TextureMetadata,
}

/// Two descriptions that say the same.
pub open spec fn same_info(a: ExternalTextureInfo, b: ExternalTextureInfo) -> bool {
    &&& a.owner_pid == b.owner_pid
    &&& a.texture_id == b.texture_id
    &&& same_metadata(a.inner, b.inner)
}

impl Clone for ExternalTextureInfo {
    fn clone(&self) -> (copy: Self)
        ensures
            same_info(copy, *self),
    {
        ExternalTextureInfo {
            owner_pid: self.owner_pid,
            texture_id: self.texture_id,
            inner: self.inner.clone(),
        }
    }
}

/// A texture of this process that others can import. Texture and descriptor are known by number.
pub struct ExternalTexture {
    texture: u64,
    info: ExternalTextureInfo,
    handle: i32,
}

/// `rustix::process::Pid::from_raw`, for numbers that are not negative, on which it would stop a
/// debug build: no process has number zero, and every other number is kept as it is.
#[verifier::external_body]
fn pid_from_raw(raw: i32) -> (pid: Option<i32>)
    requires
        raw >= 0,
    ensures
        pid == (if raw == 0 {
            None
        } else {
            Some(raw)
        }),
{
    match rustix::process::Pid::from_raw(raw) {
        Some(pid) => Some(pid.as_raw_pid()),
        None => None,
    }
}

/// An import, as far as it has come.
pub enum TextureImport {
    /// The exporting process is to be opened.
    Opening { pid: i32 },
    /// The descriptor with this number is to be fetched out of the exporting process.
    Fetching { fd: i32 },
    /// The texture is to be built.
    Building(TextureBuild),
    /// The texture exists.
    Imported { image: u64, memory: u64 },
    /// The import came to nothing.
    Refused(ExternalTextureImportError),
}

impl ExternalTexture {
    /// The number of the texture.
    pub closed spec fn spec_texture(&self) -> u64 {
        self.texture
    }

    /// What others need to know to import the texture.
    pub closed spec fn spec_info(&self) -> ExternalTextureInfo {
        self.info
    }

    /// The descriptor that keeps the texture's memory reachable.
    pub closed spec fn spec_handle(&self) -> i32 {
        self.handle
    }

    /// A shared texture, out of a texture of this process and what exporting it gave.
    pub fn new(
        owner_pid: u32,
        texture: u64,
        exported: (i32, TextureMetadata),
        id: Option<u64>,
    ) -> (shared: Self)
        ensures
            shared.spec_texture() == texture,
            shared.spec_handle() == exported.0,
            shared.spec_info() == (ExternalTextureInfo {
                owner_pid,
                texture_id: id,
                inner: exported.1,
            }),
    {
        ExternalTexture {
            texture,
            info: ExternalTextureInfo { owner_pid, texture_id: id, inner: exported.1 },
            handle: exported.0,
        }
    }

    pub fn texture(&self) -> (texture: u64)
        ensures
            texture == self.spec_texture(),
    {
        self.texture
    }

    pub fn info(&self) -> (info: &ExternalTextureInfo)
        ensures
            *info == self.spec_info(),
    {
        &self.info
    }

    /// The descriptor to close once the texture is dropped.
    pub fn handle(&self) -> (fd: i32)
        ensures
            fd == self.spec_handle(),
    {
        self.handle
    }

    /// Starts importing a texture.
    pub fn import(info: &ExternalTextureInfo) -> (import: TextureImport)
        requires
            info.owner_pid <= i32::MAX,
        ensures
            import == (if info.owner_pid == 0 {
                TextureImport::Refused(ExternalTextureImportError::InvalidPid)
            } else {
                TextureImport::Opening { pid: info.owner_pid as i32 }
            }),
    {
        match pid_from_raw(info.owner_pid as i32) {
            Some(pid) => TextureImport::Opening { pid },
            None => TextureImport::Refused(ExternalTextureImportError::InvalidPid),
        }
    }
}

impl TextureImport {
    /// Goes on once the exporting process was opened, or could not be.
    pub fn after_opening(
        info: &ExternalTextureInfo,
        opened: Result<(), Errno>,
    ) -> (import: TextureImport)
        ensures
            import == (match opened {
                Ok(()) => TextureImport::Fetching { fd: info.inner.image_fd },
                Err(errno) => TextureImport::Refused(ExternalTextureImportError::Io(errno)),
            }),
    {
        match opened {
            Ok(()) => TextureImport::Fetching { fd: info.inner.image_fd },
            Err(errno) => TextureImport::Refused(ExternalTextureImportError::from(errno)),
        }
    }

    /// Goes on once the descriptor was fetched, or could not be.
    pub fn after_fetching(
        info: &ExternalTextureInfo,
        device_is_vulkan: bool,
        fetched: Result<i32, String>,
    ) -> (import: TextureImport)
        ensures
            match fetched {
                Ok(fd) => if device_is_vulkan {
                    &&& import is Building
                    &&& import_starts(true, fd, info.inner, Ok(import->Building_0))
                } else {
                    import == TextureImport::Refused(
                        ExternalTextureImportError::TextureShareError(
                            TextureShareError::NotVulkan,
                        ),
                    )
                },
                Err(cause) => {
                    &&& import is Refused
                    &&& import->Refused_0 is TextureShareError
                    &&& import->Refused_0->TextureShareError_0 is FdTransfer
                    &&& import->Refused_0->TextureShareError_0->FdTransfer_0@
                        == "pidfd_getfd failed: "@ + cause@
                },
            },
    {
        match importer_side(device_is_vulkan, fetched, &info.inner) {
            Ok(build) => TextureImport::Building(build),
            Err(cause) => TextureImport::Refused(ExternalTextureImportError::from(cause)),
        }
    }

    /// Goes on once a build may have ended.
    pub fn after_building(build: TextureBuild) -> (import: TextureImport)
        ensures
            import == (match build.step {
                BuildStep::Finished { image, memory } => TextureImport::Imported { image, memory },
                BuildStep::Failed { cause } => TextureImport::Refused(
                    ExternalTextureImportError::TextureShareError(
                        TextureShareError::Vulkan(cause),
                    ),
                ),
                _ => TextureImport::Building(build),
            }),
    {
        match build.outcome() {
            Some(Ok((image, memory))) => TextureImport::Imported { image, memory },
            Some(Err(cause)) => TextureImport::Refused(ExternalTextureImportError::from(cause)),
            None => TextureImport::Building(build),
        }
    }
}

/// A shared texture gives back what it was made of: the texture, the descriptor, the number that it
/// was given, its owner, and all that exporting it gave.
pub proof fn law_shared_texture_keeps_what_it_was_made_of(
    owner_pid: u32,
    texture: u64,
    exported: (i32, TextureMetadata),
    id: Option<u64>,
    shared: &ExternalTexture,
    number: u64,
    fd: i32,
    info: &ExternalTextureInfo,
    copy: ExternalTextureInfo,
)
    requires
        call_ensures(ExternalTexture::new, (owner_pid, texture, exported, id), *shared),
        call_ensures(ExternalTexture::texture, (shared,), number),
        call_ensures(ExternalTexture::handle, (shared,), fd),
        call_ensures(ExternalTexture::info, (shared,), info),
        call_ensures(ExternalTextureInfo::clone, (info,), copy),
    ensures
        number == texture,
        fd == exported.0,
        info.owner_pid == owner_pid,
        info.texture_id == id,
        info.inner == exported.1,
        copy.owner_pid == owner_pid,
        copy.texture_id == id,
        copy.inner.image_fd == exported.1.image_fd,
        copy.inner.memory_type_index == exported.1.memory_type_index,
        copy.inner.wgpu_size == exported.1.wgpu_size,
        copy.inner.view_formats@ == exported.1.view_formats@,
{
}

/// An import that goes well: the process that owns the texture is opened, the descriptor that the
/// owner named is fetched out of it, a texture is built on what was fetched, from what the owner
/// told, and the import ends with the image and the memory of that build.
pub proof fn law_import_goes_its_way(
    info: &ExternalTextureInfo,
    started: TextureImport,
    opened: TextureImport,
    fd: i32,
    fetched: TextureImport,
    build: TextureBuild,
    ended: TextureImport,
)
    requires
        0 < info.owner_pid <= i32::MAX,
        call_ensures(ExternalTexture::import, (info,), started),
        call_ensures(TextureImport::after_opening, (info, Ok::<(), Errno>(())), opened),
        call_ensures(TextureImport::after_fetching, (info, true, Ok::<i32, String>(fd)), fetched),
        call_ensures(TextureImport::after_building, (build,), ended),
    ensures
        started is Opening,
        started->Opening_pid == info.owner_pid,
        opened is Fetching,
        opened->Fetching_fd == info.inner.image_fd,
        fetched is Building,
        fetched->Building_0.step is CreatingImage,
        fetched->Building_0.source is Imported,
        fetched->Building_0.source->fd == fd,
        fetched->Building_0.source->memory_type_index == info.inner.memory_type_index,
        fetched->Building_0.info.format == info.inner.vk_format,
        fetched->Building_0.info.extent.width == info.inner.extent_width,
        fetched->Building_0.info.extent.height == info.inner.extent_height,
        fetched->Building_0.descriptor.format == info.inner.wgpu_format,
        fetched->Building_0.descriptor.size == info.inner.wgpu_size,
        build.step is Finished <==> ended is Imported,
        ended is Imported ==> ended->image == build.step->Finished_image && ended->memory
            == build.step->Finished_memory,
        build.step is Failed <==> ended is Refused,
        ended is Building ==> ended->Building_0 == build,
{
}

/// An import that goes wrong says where and why: there is no process with the owner's number, the
/// process could not be opened, the descriptor could not be fetched, the device is not one of
/// Vulkan's, or the device refused.
pub proof fn law_import_says_why_it_was_refused(
    info: &ExternalTextureInfo,
    started: TextureImport,
    errno: Errno,
    opened: TextureImport,
    device_is_vulkan: bool,
    fetching: Result<i32, String>,
    fetched: TextureImport,
    build: TextureBuild,
    ended: TextureImport,
)
    requires
        info.owner_pid <= i32::MAX,
        call_ensures(ExternalTexture::import, (info,), started),
        call_ensures(TextureImport::after_opening, (info, Err::<(), Errno>(errno)), opened),
        call_ensures(TextureImport::after_fetching, (info, device_is_vulkan, fetching), fetched),
        call_ensures(TextureImport::after_building, (build,), ended),
    ensures
        started is Refused <==> info.owner_pid == 0,
        started is Refused ==> started->Refused_0 is InvalidPid,
        opened is Refused,
        opened->Refused_0 == ExternalTextureImportError::Io(errno),
        fetched is Refused <==> fetching is Err || !device_is_vulkan,
        fetched is Refused ==> fetched->Refused_0 is TextureShareError,
        fetching is Ok && !device_is_vulkan
            ==> fetched->Refused_0->TextureShareError_0 is NotVulkan,
        fetching is Err ==> {
            let cause = fetched->Refused_0->TextureShareError_0;
            cause is FdTransfer && cause->FdTransfer_0@ == "pidfd_getfd failed: "@
                + fetching->Err_0@
        },
        ended is Refused ==> ended->Refused_0 == ExternalTextureImportError::TextureShareError(
            TextureShareError::Vulkan(build.step->Failed_cause),
        ),
{
}

} // verus!
