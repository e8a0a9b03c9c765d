//! Having a game draw its windows into textures that the editor can show.
//!
//! Each window of the game gets a shared texture. After the game has run, its cameras are turned
//! from the windows to the textures, and before it runs again they are turned back, so that the
//! game never sees the difference.

use crate::collections::EntityMap;
use crate::external_texture::{
    TextureDescriptor, TextureDimension, TextureSize, USAGE_COPY_SRC, USAGE_RENDER_ATTACHMENT,
    USAGE_TEXTURE_BINDING,
};
use crate::messages::GameMsg;
use crate::shared_texture::{same_info, ExternalTexture, ExternalTextureInfo};
use crate::texture_format::TextureFormat;
use crate::texture_share::TextureMetadata;
use vstd::prelude::*;

verus! {

/// Which window is meant.
#[derive(Clone, Copy, PartialEq, Eq, Structural, Debug)]
pub enum WindowRef {
    /// The one primary window.
    Primary,
    /// The window with this entity.
    Entity(u64),
}

/// What a camera draws to.
#[derive(Clone, Copy, PartialEq, Eq, Structural, Debug)]
pub enum RenderTarget {
    Window(WindowRef),
    /// An image, with the bit pattern of the scale at which it is drawn.
    Image { image: u64, scale: u32 },
    /// A texture view that was registered under a handle.
    TextureView(u32),
    /// Nothing that has colors.
    Colorless { width: u32, height: u32 },
}

/// Size in physical pixels.
#[derive(Clone, Copy, PartialEq, Eq, Structural, Debug)]
pub struct PhysicalSize {
    pub width: u32,
    pub height: u32,
}

/// A registered view of a texture.
#[derive(Clone, Copy, PartialEq, Eq, Structural, Debug)]
pub struct ManualTextureView {
    pub texture: u64,
    pub size: PhysicalSize,
}

/// What stands in for a window.
pub struct WindowsTargets {
    pub render_target: RenderTarget,
    pub external_texture: ExternalTexture,
    pub last_size: PhysicalSize,
}

/// What stands in for the windows, and the targets that the cameras do not have at the moment.
pub struct RenderTargets {
    pub windows: EntityMap<WindowsTargets>,
    pub cameras: EntityMap<RenderTarget>,
}

impl WindowRef {
    /// The entity of the window that is meant, if there is one.
    pub open spec fn spec_normalize(self, primary_window: Option<u64>) -> Option<u64> {
        match self {
            WindowRef::Primary => primary_window,
            WindowRef::Entity(entity) => Some(entity),
        }
    }

    pub fn normalize(&self, primary_window: Option<u64>) -> (window: Option<u64>)
        ensures
            window == self.spec_normalize(primary_window),
    {
        match self {
            WindowRef::Primary => primary_window,
            WindowRef::Entity(entity) => Some(*entity),
        }
    }
}

/// The primary window, if there is exactly one.
pub fn single(primary_windows: &Vec<u64>) -> (window: Option<u64>)
    ensures
        window == (if primary_windows@.len() == 1 {
            Some(primary_windows@[0])
        } else {
            None
        }),
{
    if primary_windows.len() == 1 {
        Some(primary_windows[0])
    } else {
        None
    }
}

impl RenderTargets {
    /// A texture view stands in for every window.
    pub open spec fn wf(&self) -> bool {
        &&& self.windows.wf()
        &&& self.cameras.wf()
        &&& forall|window: u64| #[trigger]
            self.windows@.dom().contains(window)
                ==> self.windows@[window].render_target is TextureView
    }

    /// Nothing stands in for anything.
    pub fn new() -> (targets: Self)
        ensures
            targets.wf(),
            targets.windows@ == Map::<u64, WindowsTargets>::empty(),
            targets.cameras@ == Map::<u64, RenderTarget>::empty(),
    {
        RenderTargets { windows: EntityMap::new(), cameras: EntityMap::new() }
    }
}

/// Whether the texture of a window has the size of the window.
pub open spec fn is_settled(
    windows: Map<u64, WindowsTargets>,
    window: u64,
    size: PhysicalSize,
) -> bool {
    windows.dom().contains(window) && windows[window].last_size == size
}

/// A texture that can be drawn to, shown and copied, of the size of a window.
pub open spec fn is_window_texture(desc: TextureDescriptor, size: PhysicalSize) -> bool {
    &&& desc.label is None
    &&& desc.size == (TextureSize {
        width: size.width,
        height: size.height,
        depth_or_array_layers: 1,
    })
    &&& desc.mip_level_count == 1
    &&& desc.sample_count == 1
    &&& desc.dimension == TextureDimension::D2
    &&& desc.format == TextureFormat::Rgba8UnormSrgb
    &&& desc.usage == USAGE_RENDER_ATTACHMENT | USAGE_COPY_SRC | USAGE_TEXTURE_BINDING
    &&& desc.view_formats@ == seq![TextureFormat::Rgba8UnormSrgb]
}

/// The texture to make for a window that changed, unless the one it has will do.
pub fn wanted_texture(
    targets: &RenderTargets,
    window: u64,
    size: PhysicalSize,
) -> (wanted: Option<TextureDescriptor>)
    requires
        targets.wf(),
    ensures
        match wanted {
            Some(desc) => !is_settled(targets.windows@, window, size) && is_window_texture(
                desc,
                size,
            ),
            None => is_settled(targets.windows@, window, size),
        },
{
    if let Some(target) = targets.windows.get(window) {
        if target.last_size == size {
            return None;
        }
    }
    let mut view_formats: Vec<TextureFormat> = Vec::new();
    view_formats.push(TextureFormat::Rgba8UnormSrgb);
    assert(view_formats@ =~= seq![TextureFormat::Rgba8UnormSrgb]);
    Some(
        TextureDescriptor {
            label: None,
            size: TextureSize {
                width: size.width,
                height: size.height,
                depth_or_array_layers: 1,
            },
            mip_level_count: 1,
            sample_count: 1,
            dimension: TextureDimension::D2,
            format: TextureFormat::Rgba8UnormSrgb,
            usage: USAGE_RENDER_ATTACHMENT | USAGE_COPY_SRC | USAGE_TEXTURE_BINDING,
            view_formats,
        },
    )
}

/// `rand::random`, for a handle. Any number may come.
#[verifier::external_body]
fn random_handle() -> (handle: u32) {
    rand::random::<u32>()
}

/// No view is registered under the handle.
pub open spec fn is_free(views: Map<u64, ManualTextureView>, handle: u32) -> bool {
    !views.dom().contains(handle as u64)
}

/// The handle, if no view is registered under it.
pub fn free_handle(views: &EntityMap<ManualTextureView>, handle: u32) -> (free: Option<u32>)
    requires
        views.wf(),
    ensures
        free == (if is_free(views@, handle) {
            Some(handle)
        } else {
            None
        }),
{
    if views.contains_key(handle as u64) {
        None
    } else {
        Some(handle)
    }
}

/// Some handle is free.
pub open spec fn any_free(views: Map<u64, ManualTextureView>) -> bool {
    exists|handle: u32| is_free(views, handle)
}

/// The handle is free and no lower one is. Without a handle, none is free.
pub open spec fn is_lowest_free(
    views: Map<u64, ManualTextureView>,
    free: Option<u32>,
) -> bool {
    match free {
        Some(handle) => {
            &&& is_free(views, handle)
            &&& forall|lower: u32| lower < handle ==> !#[trigger] is_free(views, lower)
        },
        None => forall|handle: u32| !#[trigger] is_free(views, handle),
    }
}

/// The lowest handle that no view is registered under.
pub fn lowest_free_handle(views: &EntityMap<ManualTextureView>) -> (free: Option<u32>)
    requires
        views.wf(),
    ensures
        is_lowest_free(views@, free),
{
    let mut handle: u32 = 0;
    loop
        invariant
            views.wf(),
            forall|lower: u32| lower < handle ==> !#[trigger] is_free(views@, lower),
        decreases u32::MAX - handle,
    {
        if let Some(handle) = free_handle(views, handle) {
            return Some(handle);
        }
        if handle == u32::MAX {
            return None;
        }
        handle += 1;
    }
}

/// Draws handles until one is free. Where the given number of attempts did not find one, the lowest
/// free handle is taken. Without any attempt, there is no handle.
pub fn draw_handle(views: &EntityMap<ManualTextureView>, attempts: u32) -> (drawn: Option<u32>)
    requires
        views.wf(),
    ensures
        drawn is Some <==> attempts > 0 && any_free(views@),
        drawn is Some ==> is_free(views@, drawn->0),
{
    if attempts == 0 {
        return None;
    }
    let mut i: u32 = 0;
    while i < attempts
        invariant
            views.wf(),
            attempts > 0,
        decreases attempts - i,
    {
        let handle: u32 = random_handle();
        if let Some(handle) = free_handle(views, handle) {
            return Some(handle);
        }
        i += 1;
    }
    lowest_free_handle(views)
}

/// The handle under which a window's texture is registered, or is going to be.
pub open spec fn handle_of(
    windows: Map<u64, WindowsTargets>,
    window: u64,
    fresh: u32,
) -> u32 {
    if windows.dom().contains(window) {
        windows[window].render_target->TextureView_0
    } else {
        fresh
    }
}

/// What stands in for the windows once a window has another texture.
pub open spec fn windows_after(
    windows: Map<u64, WindowsTargets>,
    window: u64,
    size: PhysicalSize,
    texture: ExternalTexture,
    fresh: u32,
) -> Map<u64, WindowsTargets> {
    windows.insert(
        window,
        WindowsTargets {
            render_target: RenderTarget::TextureView(handle_of(windows, window, fresh)),
            external_texture: texture,
            last_size: size,
        },
    )
}

/// The registered views once a window has another texture.
pub open spec fn views_after(
    windows: Map<u64, WindowsTargets>,
    views: Map<u64, ManualTextureView>,
    window: u64,
    size: PhysicalSize,
    texture: ExternalTexture,
    fresh: u32,
) -> Map<u64, ManualTextureView> {
    views.insert(
        handle_of(windows, window, fresh) as u64,
        ManualTextureView { texture: texture.spec_texture(), size },
    )
}

/// Has a texture stand in for a window, under the handle that the window has, or under the given
/// one if it has none. The editor is to be told of the texture.
pub fn retarget(
    targets: &mut RenderTargets,
    views: &mut EntityMap<ManualTextureView>,
    window: u64,
    size: PhysicalSize,
    texture: ExternalTexture,
    fresh: u32,
) -> (msg: GameMsg)
    requires
        old(targets).wf(),
        old(views).wf(),
    ensures
        final(targets).wf(),
        final(views).wf(),
        final(targets).cameras == old(targets).cameras,
        final(targets).windows@ == windows_after(
            old(targets).windows@,
            window,
            size,
            texture,
            fresh,
        ),
        final(views)@ == views_after(
            old(targets).windows@,
            old(views)@,
            window,
            size,
            texture,
            fresh,
        ),
        msg is Image,
        same_info(msg->Image_0, texture.spec_info()),
{
    let msg = GameMsg::Image(texture.info().clone());
    let mut handle: u32 = fresh;
    if let Some(target) = targets.windows.get(window) {
        if let RenderTarget::TextureView(existing) = target.render_target {
            handle = existing;
        }
    }
    views.insert(handle as u64, ManualTextureView { texture: texture.texture(), size });
    targets.windows.insert(
        window,
        WindowsTargets {
            render_target: RenderTarget::TextureView(handle),
            external_texture: texture,
            last_size: size,
        },
    );
    msg
}

/// A texture that was exported for a window. The editor knows it by the window's entity.
pub open spec fn is_texture_of(
    shared: ExternalTexture,
    window: u64,
    owner_pid: u32,
    texture: u64,
    exported: (i32, TextureMetadata),
) -> bool {
    &&& shared.spec_texture() == texture
    &&& shared.spec_handle() == exported.0
    &&& shared.spec_info() == (ExternalTextureInfo {
        owner_pid,
        texture_id: Some(window),
        inner: exported.1,
    })
}

/// Has a texture that was made and exported for a window stand in for it. A window that is new gets
/// a handle that no view is registered under; where there is none, or none may be drawn, the texture
/// is handed back and nothing changes.
pub fn populate_window_retargets(
    targets: &mut RenderTargets,
    views: &mut EntityMap<ManualTextureView>,
    window: u64,
    size: PhysicalSize,
    owner_pid: u32,
    texture: u64,
    exported: (i32, TextureMetadata),
    attempts: u32,
) -> (told: Result<GameMsg, ExternalTexture>)
    requires
        old(targets).wf(),
        old(views).wf(),
    ensures
        final(targets).wf(),
        final(views).wf(),
        final(targets).cameras == old(targets).cameras,
        told is Ok <==> old(targets).windows@.dom().contains(window) || (attempts > 0
            && any_free(old(views)@)),
        match told {
            Ok(msg) => exists|shared: ExternalTexture, fresh: u32|
                {
                    &&& is_texture_of(shared, window, owner_pid, texture, exported)
                    &&& msg is Image
                    &&& same_info(msg->Image_0, shared.spec_info())
                    &&& !old(targets).windows@.dom().contains(window) ==> is_free(
                        old(views)@,
                        fresh,
                    )
                    &&& final(targets).windows@ == #[trigger] windows_after(
                        old(targets).windows@,
                        window,
                        size,
                        shared,
                        fresh,
                    )
                    &&& final(views)@ == views_after(
                        old(targets).windows@,
                        old(views)@,
                        window,
                        size,
                        shared,
                        fresh,
                    )
                },
            Err(unused) => {
                &&& is_texture_of(unused, window, owner_pid, texture, exported)
                &&& *final(targets) == *old(targets)
                &&& *final(views) == *old(views)
            },
        },
{
    let shared = ExternalTexture::new(owner_pid, texture, exported, Some(window));
    let ghost made = shared;
    let mut fresh: u32 = 0;
    if !targets.windows.contains_key(window) {
        match draw_handle(views, attempts) {
            Some(handle) => {
                fresh = handle;
            },
            None => {
                return Err(shared);
            },
        }
    }
    let msg = retarget(targets, views, window, size, shared, fresh);
    assert(targets.windows@ == windows_after(old(targets).windows@, window, size, made, fresh));
    Ok(msg)
}

/// The window that a target means, if it means one.
pub open spec fn window_behind(target: RenderTarget, primary_window: Option<u64>) -> Option<u64> {
    match target {
        RenderTarget::Window(window_ref) => window_ref.spec_normalize(primary_window),
        _ => None,
    }
}

/// No two cameras are the same.
pub open spec fn are_distinct(cameras: Seq<(u64, RenderTarget)>) -> bool {
    forall|i: int, j: int|
        0 <= i < j < cameras.len() ==> (#[trigger] cameras[i]).0 != (#[trigger] cameras[j]).0
}

/// There is something to put in the place of every window that a camera draws to.
pub open spec fn can_be_turned(
    cameras: Seq<(u64, RenderTarget)>,
    held: Map<u64, RenderTarget>,
    windows: Map<u64, WindowsTargets>,
    primary_window: Option<u64>,
) -> bool {
    forall|i: int|
        #![trigger cameras[i]]
        0 <= i < cameras.len() ==> {
            let window = window_behind(cameras[i].1, primary_window);
            window is Some ==> held.dom().contains(cameras[i].0) || windows.dom().contains(window->0)
        }
}

/// What a camera that draws to a window is given instead: the target that is held for it, or what
/// stands in for the window.
pub open spec fn stand_in(
    camera: (u64, RenderTarget),
    held: Map<u64, RenderTarget>,
    windows: Map<u64, WindowsTargets>,
    primary_window: Option<u64>,
) -> RenderTarget {
    if held.dom().contains(camera.0) {
        held[camera.0]
    } else {
        windows[window_behind(camera.1, primary_window)->0].render_target
    }
}

/// The camera at the given place draws to a window.
pub open spec fn turns(
    cameras: Seq<(u64, RenderTarget)>,
    i: int,
    primary_window: Option<u64>,
) -> bool {
    0 <= i < cameras.len() && window_behind(cameras[i].1, primary_window) is Some
}

/// The cameras that draw to windows have been turned away from them. Their targets are held for
/// them; all else is as it was.
pub open spec fn turned_away(
    cameras: Seq<(u64, RenderTarget)>,
    held: Map<u64, RenderTarget>,
    windows: Map<u64, WindowsTargets>,
    primary_window: Option<u64>,
    cameras_after: Seq<(u64, RenderTarget)>,
    held_after: Map<u64, RenderTarget>,
) -> bool {
    &&& cameras_after.len() == cameras.len()
    &&& forall|i: int|
        #![trigger cameras_after[i]]
        0 <= i < cameras.len() ==> cameras_after[i] == if turns(cameras, i, primary_window) {
            (cameras[i].0, stand_in(cameras[i], held, windows, primary_window))
        } else {
            cameras[i]
        }
    &&& forall|i: int|
        #![trigger cameras[i]]
        turns(cameras, i, primary_window) ==> held_after.dom().contains(cameras[i].0)
            && held_after[cameras[i].0] == cameras[i].1
    &&& forall|camera: u64|
        #![trigger held_after.dom().contains(camera)]
        #![trigger held_after[camera]]
        (forall|i: int|
            #![trigger cameras[i]]
            turns(cameras, i, primary_window) ==> cameras[i].0 != camera) ==> {
            &&& held_after.dom().contains(camera) == held.dom().contains(camera)
            &&& held.dom().contains(camera) ==> held_after[camera] == held[camera]
        }
}

/// Each camera that a target is held for has exchanged its target with the held one; all else is as
/// it was.
pub open spec fn turned_back(
    cameras: Seq<(u64, RenderTarget)>,
    held: Map<u64, RenderTarget>,
    cameras_after: Seq<(u64, RenderTarget)>,
    held_after: Map<u64, RenderTarget>,
) -> bool {
    &&& cameras_after.len() == cameras.len()
    &&& held_after.dom() == held.dom()
    &&& forall|i: int|
        #![trigger cameras_after[i]]
        #![trigger cameras[i]]
        0 <= i < cameras.len() ==> if held.dom().contains(cameras[i].0) {
            &&& cameras_after[i] == (cameras[i].0, held[cameras[i].0])
            &&& held_after[cameras[i].0] == cameras[i].1
        } else {
            cameras_after[i] == cameras[i]
        }
    &&& forall|camera: u64|
        #![trigger held_after[camera]]
        held.dom().contains(camera) && (forall|i: int|
            #![trigger cameras[i]]
            0 <= i < cameras.len() ==> cameras[i].0 != camera) ==> held_after[camera]
            == held[camera]
}

/// Whether there is something to put in the place of every window that a camera draws to.
pub fn check_can_be_turned(
    cameras: &Vec<(u64, RenderTarget)>,
    targets: &RenderTargets,
    primary_window: Option<u64>,
) -> (ready: bool)
    requires
        targets.wf(),
    ensures
        ready == can_be_turned(
            cameras@,
            targets.cameras@,
            targets.windows@,
            primary_window,
        ),
{
    let mut i: usize = 0;
    while i < cameras.len()
        invariant
            targets.wf(),
            i <= cameras@.len(),
            can_be_turned(
                cameras@.take(i as int),
                targets.cameras@,
                targets.windows@,
                primary_window,
            ),
        decreases cameras@.len() - i,
    {
        let (camera, target) = cameras[i];
        let mut ready = true;
        if let RenderTarget::Window(window_ref) = target {
            if let Some(window) = window_ref.normalize(primary_window) {
                ready = targets.cameras.contains_key(camera) || targets.windows.contains_key(
                    window,
                );
            }
        }
        if !ready {
            assert(cameras@[i as int].1 == target);
            return false;
        }
        i += 1;
        assert forall|j: int| #![trigger cameras@.take(i as int)[j]] 0 <= j < i implies {
            let seen = cameras@.take(i as int)[j];
            let window = window_behind(seen.1, primary_window);
            window is Some ==> targets.cameras@.dom().contains(seen.0)
                || targets.windows@.dom().contains(window->0)
        } by {
            if j < i - 1 {
                assert(cameras@.take(i - 1)[j] == cameras@.take(i as int)[j]);
            }
        }
    }
    assert(cameras@.take(i as int) =~= cameras@);
    true
}

/// Turns the cameras that draw to windows to what stands in for the windows.
pub fn targets_last(
    cameras: &mut Vec<(u64, RenderTarget)>,
    targets: &mut RenderTargets,
    primary_window: Option<u64>,
)
    requires
        old(targets).wf(),
        are_distinct(old(cameras)@),
        can_be_turned(
            old(cameras)@,
            old(targets).cameras@,
            old(targets).windows@,
            primary_window,
        ),
    ensures
        final(targets).wf(),
        final(targets).windows == old(targets).windows,
        turned_away(
            old(cameras)@,
            old(targets).cameras@,
            old(targets).windows@,
            primary_window,
            final(cameras)@,
            final(targets).cameras@,
        ),
{
    let ghost before = cameras@;
    let ghost held = targets.cameras@;
    let ghost windows = targets.windows@;
    let mut i: usize = 0;
    while i < cameras.len()
        invariant
            targets.wf(),
            targets.windows == old(targets).windows,
            windows == targets.windows@,
            before == old(cameras)@,
            are_distinct(before),
            can_be_turned(before, held, windows, primary_window),
            i <= before.len() == cameras@.len(),
            forall|j: int| i <= j < before.len() ==> cameras@[j] == #[trigger] before[j],
            turned_away(
                before.take(i as int),
                held,
                windows,
                primary_window,
                cameras@.take(i as int),
                targets.cameras@,
            ),
        decreases before.len() - i,
    {
        let ghost seen = before.take(i as int);
        let ghost cameras_then = cameras@;
        let ghost held_then = targets.cameras@;
        let (camera, target) = cameras[i];
        assert(before[i as int] == (camera, target));
        assert(forall|j: int|
            #![trigger seen[j]]
            0 <= j < i ==> seen[j] == before[j] && before[j].0 != before[i as int].0);
        if let RenderTarget::Window(window_ref) = target {
            if let Some(window) = window_ref.normalize(primary_window) {
                if !targets.cameras.contains_key(camera) {
                    if let Some(replacement) = targets.windows.get(window) {
                        let render_target = replacement.render_target;
                        targets.cameras.insert(camera, render_target);
                    }
                }
                let place = &mut cameras[i];
                targets.cameras.swap(camera, &mut place.1);
            }
        }
        proof {
            lemma_turn_one_more(
                before,
                held,
                windows,
                primary_window,
                i as int,
                cameras_then,
                held_then,
                cameras@,
                targets.cameras@,
            );
        }
        i += 1;
    }
    assert(before.take(i as int) =~= before);
    assert(cameras@.take(i as int) =~= cameras@);
}

/// Turning one more camera away keeps to what turning away means.
proof fn lemma_turn_one_more(
    before: Seq<(u64, RenderTarget)>,
    held: Map<u64, RenderTarget>,
    windows: Map<u64, WindowsTargets>,
    primary_window: Option<u64>,
    i: int,
    cameras: Seq<(u64, RenderTarget)>,
    held_then: Map<u64, RenderTarget>,
    cameras_after: Seq<(u64, RenderTarget)>,
    held_after: Map<u64, RenderTarget>,
)
    requires
        0 <= i < before.len() == cameras.len() == cameras_after.len(),
        are_distinct(before),
        turned_away(before.take(i), held, windows, primary_window, cameras.take(i), held_then),
        turns(before, i, primary_window) ==> {
            &&& cameras_after =~= cameras.update(
                i,
                (before[i].0, stand_in(before[i], held, windows, primary_window)),
            )
            &&& held_after =~= held_then.insert(before[i].0, before[i].1)
        },
        !turns(before, i, primary_window) ==> {
            &&& cameras_after =~= cameras
            &&& held_after =~= held_then
        },
        cameras[i] == before[i],
    ensures
        turned_away(
            before.take(i + 1),
            held,
            windows,
            primary_window,
            cameras_after.take(i + 1),
            held_after,
        ),
{
    let seen = before.take(i);
    let more = before.take(i + 1);
    assert forall|j: int| #![trigger more[j]] turns(
        more,
        j,
        primary_window,
    ) implies held_after.dom().contains(more[j].0) && held_after[more[j].0] == more[j].1 by {
        if j < i {
            assert(seen[j] == more[j]);
            assert(turns(seen, j, primary_window));
            assert(before[j].0 != before[i].0);
        }
    }
    assert forall|j: int| #![trigger cameras_after.take(i + 1)[j]] 0 <= j < more.len() implies
        cameras_after.take(i + 1)[j] == if turns(more, j, primary_window) {
        (more[j].0, stand_in(more[j], held, windows, primary_window))
    } else {
        more[j]
    } by {
        if j < i {
            assert(seen[j] == more[j]);
            assert(cameras.take(i)[j] == cameras_after.take(i + 1)[j]);
        }
    }
    assert forall|camera: u64|
        (forall|j: int|
            #![trigger more[j]]
            turns(more, j, primary_window) ==> more[j].0 != camera) implies {
        &&& #[trigger] held_after.dom().contains(camera) == held.dom().contains(camera)
        &&& held.dom().contains(camera) ==> held_after[camera] == held[camera]
    } by {
        assert(more[i] == before[i]);
        assert forall|j: int| #![trigger seen[j]] turns(
            seen,
            j,
            primary_window,
        ) implies seen[j].0 != camera by {
            assert(more[j] == seen[j]);
            assert(turns(more, j, primary_window));
        }
        assert(held_then.dom().contains(camera) == held.dom().contains(camera));
        if turns(before, i, primary_window) {
            assert(turns(more, i, primary_window));
        }
    }
}

/// Gives the cameras back the targets that are held for them.
pub fn targets_first(cameras: &mut Vec<(u64, RenderTarget)>, targets: &mut RenderTargets)
    requires
        old(targets).wf(),
        are_distinct(old(cameras)@),
    ensures
        final(targets).wf(),
        final(targets).windows == old(targets).windows,
        turned_back(
            old(cameras)@,
            old(targets).cameras@,
            final(cameras)@,
            final(targets).cameras@,
        ),
{
    let ghost before = cameras@;
    let ghost held = targets.cameras@;
    let mut i: usize = 0;
    while i < cameras.len()
        invariant
            targets.wf(),
            targets.windows == old(targets).windows,
            before == old(cameras)@,
            are_distinct(before),
            i <= before.len() == cameras@.len(),
            forall|j: int| i <= j < before.len() ==> cameras@[j] == #[trigger] before[j],
            turned_back(
                before.take(i as int),
                held,
                cameras@.take(i as int),
                targets.cameras@,
            ),
        decreases before.len() - i,
    {
        let ghost cameras_then = cameras@;
        let ghost held_then = targets.cameras@;
        let camera: u64 = cameras[i].0;
        assert(before[i as int].0 == camera);
        let place = &mut cameras[i];
        targets.cameras.swap(camera, &mut place.1);
        proof {
            let seen = before.take(i as int);
            assert forall|j: int| #![trigger seen[j]] 0 <= j < seen.len() implies seen[j].0
                != camera by {
                assert(seen[j] == before[j]);
            }
            if held.dom().contains(camera) {
                assert(held_then[camera] == held[camera]);
            }
            lemma_turn_one_back(
                before,
                held,
                i as int,
                cameras_then,
                held_then,
                cameras@,
                targets.cameras@,
            );
        }
        i += 1;
    }
    assert(before.take(i as int) =~= before);
    assert(cameras@.take(i as int) =~= cameras@);
}

/// Turning one more camera back keeps to what turning back means.
proof fn lemma_turn_one_back(
    before: Seq<(u64, RenderTarget)>,
    held: Map<u64, RenderTarget>,
    i: int,
    cameras: Seq<(u64, RenderTarget)>,
    held_then: Map<u64, RenderTarget>,
    cameras_after: Seq<(u64, RenderTarget)>,
    held_after: Map<u64, RenderTarget>,
)
    requires
        0 <= i < before.len() == cameras.len() == cameras_after.len(),
        are_distinct(before),
        turned_back(before.take(i), held, cameras.take(i), held_then),
        cameras[i] == before[i],
        held.dom().contains(before[i].0) ==> {
            &&& cameras_after =~= cameras.update(i, (before[i].0, held[before[i].0]))
            &&& held_after =~= held_then.insert(before[i].0, before[i].1)
        },
        !held.dom().contains(before[i].0) ==> {
            &&& cameras_after =~= cameras
            &&& held_after =~= held_then
        },
    ensures
        turned_back(before.take(i + 1), held, cameras_after.take(i + 1), held_after),
{
    let seen = before.take(i);
    let more = before.take(i + 1);
    let after = cameras_after.take(i + 1);
    assert forall|j: int|
        #![trigger after[j]]
        #![trigger more[j]]
        0 <= j < more.len() implies if held.dom().contains(more[j].0) {
        &&& after[j] == (more[j].0, held[more[j].0])
        &&& held_after[more[j].0] == more[j].1
    } else {
        after[j] == more[j]
    } by {
        if j < i {
            assert(seen[j] == more[j]);
            assert(cameras.take(i)[j] == after[j]);
            assert(before[j].0 != before[i].0);
        }
    }
    assert forall|camera: u64|
        #![trigger held_after[camera]]
        held.dom().contains(camera) && (forall|j: int|
            #![trigger more[j]]
            0 <= j < more.len() ==> more[j].0 != camera) implies held_after[camera]
        == held[camera] by {
        assert(more[i] == before[i]);
        assert forall|j: int| #![trigger seen[j]] 0 <= j < seen.len() implies seen[j].0 != camera by {
            assert(more[j] == seen[j]);
        }
        assert(held_then[camera] == held[camera]);
    }
    assert(held_after.dom() =~= held.dom());
}

/// Turning the cameras away from the windows, and then back, leaves every camera as the game had
/// it. A camera that a target is held for, and that does not draw to a window, must draw to what is
/// held for it.
pub proof fn law_cameras_are_turned_back(
    cameras: Seq<(u64, RenderTarget)>,
    held: Map<u64, RenderTarget>,
    windows: Map<u64, WindowsTargets>,
    primary_window: Option<u64>,
    cameras_between: Seq<(u64, RenderTarget)>,
    held_between: Map<u64, RenderTarget>,
    cameras_after: Seq<(u64, RenderTarget)>,
    held_after: Map<u64, RenderTarget>,
)
    requires
        are_distinct(cameras),
        turned_away(
            cameras,
            held,
            windows,
            primary_window,
            cameras_between,
            held_between,
        ),
        turned_back(cameras_between, held_between, cameras_after, held_after),
        forall|i: int|
            #![trigger cameras[i]]
            0 <= i < cameras.len() && !turns(cameras, i, primary_window) && held.dom().contains(
                cameras[i].0,
            ) ==> held[cameras[i].0] == cameras[i].1,
    ensures
        cameras_after == cameras,
{
    assert forall|i: int| 0 <= i < cameras.len() implies cameras_after[i] == cameras[i] by {
        assert(cameras_between[i].0 == cameras[i].0);
        if !turns(cameras, i, primary_window) {
            assert forall|j: int| #![trigger cameras[j]] turns(
                cameras,
                j,
                primary_window,
            ) implies cameras[j].0 != cameras[i].0 by {
                assert(i != j);
            }
            assert(held_between.dom().contains(cameras[i].0) == held.dom().contains(
                cameras[i].0,
            ));
        }
    }
    assert(cameras_after =~= cameras);
}

/// Once a camera was turned to a stand-in, it is turned to the same one round after round, whatever
/// becomes of the windows in between.
pub proof fn law_cameras_are_turned_to_the_same_targets(
    cameras: Seq<(u64, RenderTarget)>,
    held: Map<u64, RenderTarget>,
    windows: Map<u64, WindowsTargets>,
    primary_window: Option<u64>,
    cameras_between: Seq<(u64, RenderTarget)>,
    held_between: Map<u64, RenderTarget>,
    cameras_after: Seq<(u64, RenderTarget)>,
    held_after: Map<u64, RenderTarget>,
    other_windows: Map<u64, WindowsTargets>,
    cameras_again: Seq<(u64, RenderTarget)>,
    held_again: Map<u64, RenderTarget>,
)
    requires
        are_distinct(cameras),
        turned_away(
            cameras,
            held,
            windows,
            primary_window,
            cameras_between,
            held_between,
        ),
        turned_back(cameras_between, held_between, cameras_after, held_after),
        forall|i: int|
            #![trigger cameras[i]]
            0 <= i < cameras.len() && !turns(cameras, i, primary_window) && held.dom().contains(
                cameras[i].0,
            ) ==> held[cameras[i].0] == cameras[i].1,
        turned_away(
            cameras_after,
            held_after,
            other_windows,
            primary_window,
            cameras_again,
            held_again,
        ),
    ensures
        cameras_again == cameras_between,
{
    law_cameras_are_turned_back(
        cameras,
        held,
        windows,
        primary_window,
        cameras_between,
        held_between,
        cameras_after,
        held_after,
    );
    assert forall|i: int| 0 <= i < cameras.len() implies cameras_again[i]
        == cameras_between[i] by {
        assert(cameras_after[i] == cameras[i]);
        if turns(cameras, i, primary_window) {
            assert(held_between.dom().contains(cameras[i].0));
            assert(cameras_between[i].0 == cameras[i].0);
            assert(held_after[cameras_between[i].0] == cameras_between[i].1);
            assert(turns(cameras_after, i, primary_window));
        }
    }
    assert(cameras_again =~= cameras_between);
}

/// Turning the cameras back twice changes nothing.
pub proof fn law_turning_back_undoes_itself(
    cameras: Seq<(u64, RenderTarget)>,
    held: Map<u64, RenderTarget>,
    cameras_between: Seq<(u64, RenderTarget)>,
    held_between: Map<u64, RenderTarget>,
    cameras_after: Seq<(u64, RenderTarget)>,
    held_after: Map<u64, RenderTarget>,
)
    requires
        are_distinct(cameras),
        turned_back(cameras, held, cameras_between, held_between),
        turned_back(cameras_between, held_between, cameras_after, held_after),
    ensures
        cameras_after == cameras,
        held_after == held,
{
    assert forall|i: int| #![trigger cameras[i]] 0 <= i < cameras.len() implies cameras_after[i]
        == cameras[i] && (held.dom().contains(cameras[i].0) ==> held_after[cameras[i].0]
        == held[cameras[i].0]) by {
        assert(cameras_between[i].0 == cameras[i].0);
    }
    assert(cameras_after =~= cameras);
    assert forall|camera: u64| held.dom().contains(camera) implies #[trigger] held_after[camera]
        == held[camera] by {
        if exists|i: int| 0 <= i < cameras.len() && cameras[i].0 == camera {
            let i = choose|i: int| 0 <= i < cameras.len() && cameras[i].0 == camera;
            assert(cameras[i].0 == camera);
        } else {
            assert forall|i: int|
                #![trigger cameras_between[i]]
                0 <= i < cameras_between.len() implies cameras_between[i].0 != camera by {
                assert(cameras[i].0 != camera);
            }
            assert(held_between[camera] == held[camera]);
        }
    }
    assert(held_after =~= held);
}

/// Once a window has its texture, no other one is wanted until its size changes. A window that had
/// a handle keeps it.
pub proof fn law_window_settles(
    windows: Map<u64, WindowsTargets>,
    window: u64,
    size: PhysicalSize,
    other: PhysicalSize,
    texture: ExternalTexture,
    fresh: u32,
)
    requires
        windows.dom().contains(window) ==> windows[window].render_target is TextureView,
    ensures
        ({
            let after = windows_after(windows, window, size, texture, fresh);
            &&& is_settled(after, window, other) <==> other == size
            &&& windows.dom().contains(window) ==> after[window].render_target
                == windows[window].render_target
        }),
{
}

/// Every window's texture is registered under a handle of its own.
pub open spec fn all_shown(
    windows: Map<u64, WindowsTargets>,
    views: Map<u64, ManualTextureView>,
) -> bool {
    &&& forall|window: u64|
        #![trigger windows[window]]
        windows.dom().contains(window) ==> {
            &&& windows[window].render_target is TextureView
            &&& views.dom().contains(windows[window].render_target->TextureView_0 as u64)
            &&& views[windows[window].render_target->TextureView_0 as u64] == (ManualTextureView {
                texture: windows[window].external_texture.spec_texture(),
                size: windows[window].last_size,
            })
        }
    &&& forall|a: u64, b: u64|
        #![trigger windows[a], windows[b]]
        windows.dom().contains(a) && windows.dom().contains(b) && a != b
            ==> windows[a].render_target != windows[b].render_target
}

/// Every window's texture stays registered under a handle of its own, with the size that the window
/// has, as long as a new window gets a handle that was free.
pub proof fn law_every_window_is_shown(
    windows: Map<u64, WindowsTargets>,
    views: Map<u64, ManualTextureView>,
    window: u64,
    size: PhysicalSize,
    texture: ExternalTexture,
    fresh: u32,
)
    requires
        all_shown(windows, views),
        !windows.dom().contains(window) ==> !views.dom().contains(fresh as u64),
    ensures
        all_shown(
            windows_after(windows, window, size, texture, fresh),
            views_after(windows, views, window, size, texture, fresh),
        ),
{
    let after = windows_after(windows, window, size, texture, fresh);
    assert forall|a: u64, b: u64|
        #![trigger after[a], after[b]]
        after.dom().contains(a) && after.dom().contains(b) && a != b implies after[a].render_target
        != after[b].render_target by {
        if a != window {
            assert(after[a] == windows[a]);
        }
        if b != window {
            assert(after[b] == windows[b]);
        }
    }
    assert forall|other: u64| #![trigger after[other]] after.dom().contains(other) implies {
        let shown = views_after(windows, views, window, size, texture, fresh);
        &&& after[other].render_target is TextureView
        &&& shown.dom().contains(after[other].render_target->TextureView_0 as u64)
        &&& shown[after[other].render_target->TextureView_0 as u64] == (ManualTextureView {
            texture: after[other].external_texture.spec_texture(),
            size: after[other].last_size,
        })
    } by {
        if other != window {
            assert(after[other] == windows[other]);
            if windows.dom().contains(window) {
                assert(windows[other].render_target != windows[window].render_target);
            }
        }
    }
}

/// Turning the cameras away by [`targets_last`]. A camera that draws to the window with some entity is
/// turned to what stands in for that very window, whatever the primary window is; one that draws to
/// the primary window is turned to what stands in for the primary window. Where a target is held for
/// the camera, it gets that one instead. Its own target is held for it from then on. A camera that
/// draws to no window keeps its target, and so does one that draws to the primary window where there
/// is none.
pub proof fn law_camera_is_turned_to_the_stand_in_of_its_window(
    cameras: &mut Vec<(u64, RenderTarget)>,
    targets: &mut RenderTargets,
    primary_window: Option<u64>,
    i: int,
)
    requires
        call_ensures(targets_last, (cameras, targets, primary_window), ()),
        are_distinct(old(cameras)@),
        0 <= i < old(cameras)@.len(),
    ensures
        ({
            let (camera, target) = old(cameras)@[i];
            let held = old(targets).cameras@;
            let windows = old(targets).windows@;
            let (same_camera, new_target) = final(cameras)@[i];
            let held_after = final(targets).cameras@;
            let draws_to_window = {
                ||| target is Window && target->Window_0 is Entity
                ||| target is Window && target->Window_0 is Primary && primary_window is Some
            };
            &&& final(cameras)@.len() == old(cameras)@.len()
            &&& final(targets).windows == old(targets).windows
            &&& same_camera == camera
            &&& target is Window && target->Window_0 is Entity && !held.dom().contains(camera)
                ==> new_target == windows[target->Window_0->Entity_0].render_target
            &&& target == RenderTarget::Window(WindowRef::Primary) && primary_window is Some
                && !held.dom().contains(camera) ==> new_target
                == windows[primary_window->0].render_target
            &&& draws_to_window && held.dom().contains(camera) ==> new_target == held[camera]
            &&& draws_to_window ==> held_after.dom().contains(camera) && held_after[camera]
                == target
            &&& !draws_to_window ==> new_target == target
            &&& !draws_to_window ==> held_after.dom().contains(camera) == held.dom().contains(
                camera,
            )
            &&& !draws_to_window && held.dom().contains(camera) ==> held_after[camera]
                == held[camera]
        }),
{
    let before = old(cameras)@;
    let camera = before[i].0;
    assert(turns(before, i, primary_window) <==> window_behind(before[i].1, primary_window)
        is Some);
    assert(final(cameras)@[i].0 == camera);
    if !turns(before, i, primary_window) {
        assert forall|j: int| #![trigger before[j]] turns(
            before,
            j,
            primary_window,
        ) implies before[j].0 != camera by {
            assert(i != j);
        }
        assert(final(targets).cameras@.dom().contains(camera) == old(
            targets,
        ).cameras@.dom().contains(camera));
    }
}

/// What is held for a camera that does not exist stays held when the cameras are turned away.
pub proof fn law_targets_of_absent_cameras_stay_held(
    cameras: &mut Vec<(u64, RenderTarget)>,
    targets: &mut RenderTargets,
    primary_window: Option<u64>,
    camera: u64,
)
    requires
        call_ensures(targets_last, (cameras, targets, primary_window), ()),
        forall|i: int| 0 <= i < old(cameras)@.len() ==> (#[trigger] old(cameras)@[i]).0 != camera,
    ensures
        final(targets).cameras@.dom().contains(camera) == old(targets).cameras@.dom().contains(
            camera,
        ),
        old(targets).cameras@.dom().contains(camera) ==> final(targets).cameras@[camera] == old(
            targets,
        ).cameras@[camera],
{
    assert(final(targets).cameras@.dom().contains(camera) == old(targets).cameras@.dom().contains(
        camera,
    ));
}

/// Turning the cameras back by [`targets_first`] gives each camera the target that is held for it, and
/// holds the one that it had. A camera for which nothing is held keeps its target.
pub proof fn law_camera_gets_its_target_back(
    cameras: &mut Vec<(u64, RenderTarget)>,
    targets: &mut RenderTargets,
    i: int,
)
    requires
        call_ensures(targets_first, (cameras, targets), ()),
        0 <= i < old(cameras)@.len(),
    ensures
        ({
            let (camera, target) = old(cameras)@[i];
            let held = old(targets).cameras@;
            &&& final(cameras)@.len() == old(cameras)@.len()
            &&& final(cameras)@[i].0 == camera
            &&& held.dom().contains(camera) ==> final(cameras)@[i].1 == held[camera]
            &&& held.dom().contains(camera) ==> final(targets).cameras@[camera] == target
            &&& !held.dom().contains(camera) ==> final(cameras)@[i].1 == target
            &&& final(targets).cameras@.dom() == held.dom()
            &&& final(targets).windows == old(targets).windows
        }),
{
    assert(final(cameras)@[i].0 == old(cameras)@[i].0);
}

/// The cameras can be turned away unless one of them draws to a window that nothing stands in for,
/// and has nothing held for it.
pub proof fn law_cameras_can_be_turned(
    cameras: &Vec<(u64, RenderTarget)>,
    targets: &RenderTargets,
    primary_window: Option<u64>,
    ready: bool,
)
    requires
        call_ensures(check_can_be_turned, (cameras, targets, primary_window), ready),
    ensures
        !ready <==> exists|i: int|
            {
                let (camera, target) = #[trigger] cameras@[i];
                &&& 0 <= i < cameras@.len()
                &&& !targets.cameras@.dom().contains(camera)
                &&& {
                    ||| target is Window && target->Window_0 is Entity
                        && !targets.windows@.dom().contains(target->Window_0->Entity_0)
                    ||| target == RenderTarget::Window(WindowRef::Primary) && primary_window is Some
                        && !targets.windows@.dom().contains(primary_window->0)
                }
            },
{
    if !ready {
        let i = choose|i: int|
            #![trigger cameras@[i]]
            0 <= i < cameras@.len() && {
                let window = window_behind(cameras@[i].1, primary_window);
                window is Some && !targets.cameras@.dom().contains(cameras@[i].0)
                    && !targets.windows@.dom().contains(window->0)
            };
        let (camera, target) = cameras@[i];
        assert(0 <= i < cameras@.len());
        assert(window_behind(cameras@[i].1, primary_window) is Some);
    }
}

/// The window that is meant: the primary one, if there is one, or the one that is named.
pub proof fn law_window_that_is_meant(
    window_ref: &WindowRef,
    primary_window: Option<u64>,
    window: Option<u64>,
    primary_windows: &Vec<u64>,
    only: Option<u64>,
)
    requires
        call_ensures(WindowRef::normalize, (window_ref, primary_window), window),
        call_ensures(single, (primary_windows,), only),
    ensures
        *window_ref is Primary ==> window == primary_window,
        *window_ref is Entity ==> window == Some(window_ref->Entity_0),
        only is Some <==> primary_windows@.len() == 1,
        only is Some ==> primary_windows@ == seq![only->0],
{
    if only is Some {
        assert(primary_windows@ =~= seq![only->0]);
    }
}

/// A new texture is wanted exactly for a window that has none, or one of another size. It has the size
/// of the window, one level and one sample, can be shared, drawn to, copied and shown, and is viewed
/// as it is.
pub proof fn law_texture_of_the_windows_size_is_wanted(
    targets: &RenderTargets,
    window: u64,
    size: PhysicalSize,
    wanted: Option<TextureDescriptor>,
)
    requires
        call_ensures(wanted_texture, (targets, window, size), wanted),
    ensures
        wanted is None <==> targets.windows@.dom().contains(window)
            && targets.windows@[window].last_size == size,
        wanted is Some ==> {
            let desc = wanted->0;
            &&& desc.size.width == size.width
            &&& desc.size.height == size.height
            &&& desc.size.depth_or_array_layers == 1
            &&& desc.dimension is D2
            &&& desc.mip_level_count == 1
            &&& desc.sample_count == 1
            &&& desc.format is Rgba8UnormSrgb
            &&& desc.view_formats@.len() == 1
            &&& desc.view_formats@[0] == desc.format
            &&& desc.usage == 16u32 | 1u32 | 4u32
            &&& desc.label is None
        },
{
}

/// Retargeting a window changes that window alone: it is known by the given texture and size from
/// then on, under the handle that it had, or under the given one if it had none, and that is where
/// the texture is registered. The editor is told of the texture. No other window and no other handle
/// changes.
pub proof fn law_retargeting_changes_one_window(
    targets: &mut RenderTargets,
    views: &mut EntityMap<ManualTextureView>,
    window: u64,
    size: PhysicalSize,
    texture: ExternalTexture,
    fresh: u32,
    msg: GameMsg,
)
    requires
        call_ensures(retarget, (targets, views, window, size, texture, fresh), msg),
        old(targets).wf(),
    ensures
        ({
            let before = old(targets).windows@;
            let after = final(targets).windows@;
            let handle = after[window].render_target->TextureView_0;
            &&& after.dom() == before.dom().insert(window)
            &&& after[window].render_target is TextureView
            &&& after[window].external_texture == texture
            &&& after[window].last_size == size
            &&& before.dom().contains(window) ==> after[window].render_target
                == before[window].render_target
            &&& !before.dom().contains(window) ==> handle == fresh
            &&& forall|other: u64|
                #![trigger after[other]]
                other != window && before.dom().contains(other) ==> after[other] == before[other]
            &&& final(views)@.dom() == old(views)@.dom().insert(handle as u64)
            &&& final(views)@[handle as u64].texture == texture.spec_texture()
            &&& final(views)@[handle as u64].size == size
            &&& forall|other: u64|
                #![trigger final(views)@[other]]
                other != handle && old(views)@.dom().contains(other) ==> final(views)@[other]
                    == old(views)@[other]
            &&& final(targets).cameras == old(targets).cameras
            &&& msg is Image
            &&& msg->Image_0.owner_pid == texture.spec_info().owner_pid
            &&& msg->Image_0.texture_id == texture.spec_info().texture_id
            &&& msg->Image_0.inner.image_fd == texture.spec_info().inner.image_fd
            &&& msg->Image_0.inner.wgpu_size == texture.spec_info().inner.wgpu_size
        }),
{
    let handle = handle_of(old(targets).windows@, window, fresh);
    assert(final(targets).windows@.dom() =~= old(targets).windows@.dom().insert(window));
    assert(final(views)@.dom() =~= old(views)@.dom().insert(handle as u64));
}

/// Populating a window with an exported texture works for every window that is known, and for every
/// other one if a handle may be drawn and one is free. The editor is then told who owns the texture,
/// that it is known by the window's entity, and all that exporting it gave. The window is known by
/// that texture and size from then on, and no other window changes. Where it does not work, nothing
/// changes at all.
pub proof fn law_window_is_populated(
    targets: &mut RenderTargets,
    views: &mut EntityMap<ManualTextureView>,
    window: u64,
    size: PhysicalSize,
    owner_pid: u32,
    texture: u64,
    exported: (i32, TextureMetadata),
    attempts: u32,
    told: Result<GameMsg, ExternalTexture>,
)
    requires
        call_ensures(
            populate_window_retargets,
            (targets, views, window, size, owner_pid, texture, exported, attempts),
            told,
        ),
        old(targets).wf(),
    ensures
        ({
            let before = old(targets).windows@;
            let after = final(targets).windows@;
            let handle = after[window].render_target->TextureView_0;
            &&& told is Err <==> !before.dom().contains(window) && (attempts == 0 || (forall|
                handle: u32,
            | #[trigger] old(views)@.dom().contains(handle as u64)))
            &&& told is Err ==> *final(targets) == *old(targets) && *final(views) == *old(views)
            &&& told is Err ==> told->Err_0.spec_texture() == texture
            &&& told is Ok ==> {
                &&& told->Ok_0 is Image
                &&& told->Ok_0->Image_0.owner_pid == owner_pid
                &&& told->Ok_0->Image_0.texture_id == Some(window)
                &&& told->Ok_0->Image_0.inner.image_fd == exported.1.image_fd
                &&& told->Ok_0->Image_0.inner.wgpu_size == exported.1.wgpu_size
                &&& after.dom() == before.dom().insert(window)
                &&& after[window].render_target is TextureView
                &&& after[window].last_size == size
                &&& after[window].external_texture.spec_texture() == texture
                &&& after[window].external_texture.spec_handle() == exported.0
                &&& before.dom().contains(window) ==> after[window].render_target
                    == before[window].render_target
                &&& !before.dom().contains(window) ==> !old(views)@.dom().contains(handle as u64)
                &&& forall|other: u64|
                    #![trigger after[other]]
                    other != window && before.dom().contains(other) ==> after[other]
                        == before[other]
                &&& final(views)@.dom() == old(views)@.dom().insert(handle as u64)
                &&& final(views)@[handle as u64] == (ManualTextureView { texture, size })
                &&& forall|other: u64|
                    #![trigger final(views)@[other]]
                    other != handle && old(views)@.dom().contains(other) ==> final(views)@[other]
                        == old(views)@[other]
            }
            &&& final(targets).cameras == old(targets).cameras
        }),
{
    let before = old(targets).windows@;
    if told is Err {
        if attempts > 0 && !before.dom().contains(window) {
            assert forall|handle: u32| #[trigger] old(views)@.dom().contains(handle as u64) by {
                assert(!is_free(old(views)@, handle));
            }
        }
    } else {
        let (shared, fresh) = choose|shared: ExternalTexture, fresh: u32|
            {
                &&& is_texture_of(shared, window, owner_pid, texture, exported)
                &&& told->Ok_0 is Image
                &&& same_info(told->Ok_0->Image_0, shared.spec_info())
                &&& !before.dom().contains(window) ==> is_free(old(views)@, fresh)
                &&& final(targets).windows@ == #[trigger] windows_after(
                    before,
                    window,
                    size,
                    shared,
                    fresh,
                )
                &&& final(views)@ == views_after(
                    before,
                    old(views)@,
                    window,
                    size,
                    shared,
                    fresh,
                )
            };
        let handle = handle_of(before, window, fresh);
        assert(final(targets).windows@ == windows_after(before, window, size, shared, fresh));
        assert(final(targets).windows@.dom() =~= before.dom().insert(window));
        assert(final(views)@.dom() =~= old(views)@.dom().insert(handle as u64));
        if !before.dom().contains(window) {
            let free = choose|handle: u32| is_free(old(views)@, handle);
            assert(!old(views)@.dom().contains(free as u64));
        }
    }
}

/// A handle that was drawn is one that no view is registered under. One is drawn unless none may be
/// drawn or all are taken, and the lowest free one is lower than all other free ones.
pub proof fn law_drawn_handle_is_free(
    views: &EntityMap<ManualTextureView>,
    attempts: u32,
    drawn: Option<u32>,
    lowest: Option<u32>,
    handle: u32,
    free: Option<u32>,
)
    requires
        call_ensures(draw_handle, (views, attempts), drawn),
        call_ensures(lowest_free_handle, (views,), lowest),
        call_ensures(free_handle, (views, handle), free),
    ensures
        drawn is Some ==> !views@.dom().contains(drawn->0 as u64),
        attempts > 0 && !views@.dom().contains(handle as u64) ==> drawn is Some,
        attempts == 0 ==> drawn is None,
        lowest is Some ==> !views@.dom().contains(lowest->0 as u64),
        !views@.dom().contains(handle as u64) ==> lowest is Some && lowest->0 <= handle,
        free is Some <==> !views@.dom().contains(handle as u64),
        free is Some ==> free->0 == handle,
{
    assert(is_free(views@, handle) <==> !views@.dom().contains(handle as u64));
}

} // verus!
