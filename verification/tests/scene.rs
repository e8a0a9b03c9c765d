use editor_link::collections::EntityMap;
use editor_link::entity_sync::{
    check_children, find_parent, marked_entities, reset_scene, reverse_entities_map,
    spawn_editor_sync, BrpRequest, Component, EntitySync, RelationPaths, SyncAction, SyncError,
    SyncEvent, SyncStep,
};
use editor_link::external_texture::{
    TextureDimension, TextureSize, USAGE_COPY_SRC, USAGE_RENDER_ATTACHMENT, USAGE_TEXTURE_BINDING,
};
use editor_link::game_process::GameProcess;
use editor_link::messages::{EditorMsg, GameMsg};
use editor_link::render_targets::{
    check_can_be_turned, draw_handle, free_handle, lowest_free_handle, populate_window_retargets,
    single, targets_first, targets_last, wanted_texture, ManualTextureView, PhysicalSize,
    RenderTarget, RenderTargets, WindowRef,
};
use editor_link::shared_texture::{ExternalTextureImportError, ExternalTextureInfo};
use editor_link::texture_format::TextureFormat;
use editor_link::texture_share::TextureMetadata;
use editor_link::viewport::{
    send_events_to_game_viewport, texture_to_import, update_game_viewport_texture_observer,
    GameViewport, ViewportFrame, ViewportTarget, ViewportTargets, ViewportTextureCreated,
    ViewportTextureUpdate, ViewportUpdate,
};
use editor_link::window_event::{Position, WindowEvent};

const WINDOW: u64 = 0x3_0000_0005;

fn metadata(width: u32, height: u32) -> TextureMetadata {
    TextureMetadata {
        image_type: 1,
        vk_format: 43,
        extent_width: width,
        extent_height: height,
        extent_depth: 1,
        mip_levels: 1,
        array_layers: 1,
        samples: 1,
        tiling: 0,
        vk_usage: 21,
        allocation_size: 4096,
        memory_type_index: 0,
        wgpu_format: TextureFormat::Rgba8UnormSrgb,
        wgpu_dimension: TextureDimension::D2,
        wgpu_mip_level_count: 1,
        wgpu_sample_count: 1,
        wgpu_usage: 21,
        wgpu_size: TextureSize { width, height, depth_or_array_layers: 1 },
        view_formats: vec![],
        image_fd: 9,
    }
}

fn size(width: u32, height: u32) -> PhysicalSize {
    PhysicalSize { width, height }
}

fn handle_of(targets: &RenderTargets, window: u64) -> u32 {
    match targets.windows.get(window).unwrap().render_target {
        RenderTarget::TextureView(handle) => handle,
        other => panic!("{:?}", other),
    }
}

fn populate(
    targets: &mut RenderTargets,
    views: &mut EntityMap<ManualTextureView>,
    window: u64,
    size: PhysicalSize,
    texture: u64,
) -> GameMsg {
    let exported = (9, metadata(size.width, size.height));
    match populate_window_retargets(targets, views, window, size, 321, texture, exported, 100) {
        Ok(msg) => msg,
        Err(_) => panic!("no handle"),
    }
}

#[test]
fn window_gets_a_texture_of_its_size() {
    let targets = RenderTargets::new();
    let desc = wanted_texture(&targets, WINDOW, size(640, 480)).unwrap();
    assert!(desc.label.is_none());
    assert_eq!(desc.size, TextureSize { width: 640, height: 480, depth_or_array_layers: 1 });
    assert_eq!((desc.mip_level_count, desc.sample_count), (1, 1));
    assert_eq!(desc.dimension, TextureDimension::D2);
    assert_eq!(desc.format, TextureFormat::Rgba8UnormSrgb);
    assert_eq!(desc.usage, USAGE_RENDER_ATTACHMENT | USAGE_COPY_SRC | USAGE_TEXTURE_BINDING);
    assert_eq!(desc.usage, 21);
    assert_eq!(desc.view_formats, vec![TextureFormat::Rgba8UnormSrgb]);
}

#[test]
fn editor_is_told_of_the_texture() {
    let mut targets = RenderTargets::new();
    let mut views = EntityMap::new();
    match populate(&mut targets, &mut views, WINDOW, size(640, 480), 70) {
        GameMsg::Image(info) => {
            assert_eq!(info.texture_id, Some(WINDOW));
            assert_eq!(info.owner_pid, 321);
            assert_eq!(info.inner.wgpu_size.width, 640);
        }
        other => panic!("{:?}", other),
    }
    let handle = handle_of(&targets, WINDOW);
    let view = *views.get(handle as u64).unwrap();
    assert_eq!(view, ManualTextureView { texture: 70, size: size(640, 480) });
}

#[test]
fn window_settles_and_keeps_its_handle() {
    let mut targets = RenderTargets::new();
    let mut views = EntityMap::new();
    populate(&mut targets, &mut views, WINDOW, size(640, 480), 70);
    let handle = handle_of(&targets, WINDOW);
    assert!(wanted_texture(&targets, WINDOW, size(640, 480)).is_none());
    assert!(wanted_texture(&targets, WINDOW, size(641, 480)).is_some());
    populate(&mut targets, &mut views, WINDOW, size(641, 480), 71);
    assert_eq!(handle_of(&targets, WINDOW), handle);
    assert_eq!(views.len(), 1);
    assert_eq!(views.get(handle as u64).unwrap().texture, 71);
    assert_eq!(targets.windows.get(WINDOW).unwrap().external_texture.texture(), 71);
}

#[test]
fn windows_have_handles_of_their_own() {
    let mut targets = RenderTargets::new();
    let mut views = EntityMap::new();
    for window in 1..20 {
        populate(&mut targets, &mut views, window, size(1, 1), window);
    }
    assert_eq!(views.len(), 19);
    for window in 1..20 {
        let handle = handle_of(&targets, window);
        assert_eq!(views.get(handle as u64).unwrap().texture, window);
    }
}

#[test]
fn taken_handles_are_not_drawn() {
    let mut views = EntityMap::new();
    assert_eq!(draw_handle(&views, 0), None);
    assert!(draw_handle(&views, 1).is_some());
    views.insert(8, ManualTextureView { texture: 1, size: size(1, 1) });
    assert_eq!(free_handle(&views, 8), None);
    assert_eq!(free_handle(&views, 9), Some(9));
}

#[test]
fn free_handle_is_found_beside_the_taken_ones() {
    let mut views = EntityMap::new();
    assert_eq!(lowest_free_handle(&views), Some(0));
    for handle in [0, 1, 3] {
        views.insert(handle, ManualTextureView { texture: 1, size: size(1, 1) });
    }
    assert_eq!(lowest_free_handle(&views), Some(2));
    let drawn = draw_handle(&views, 1).unwrap();
    assert!(!views.contains_key(drawn as u64));
    let mut targets = RenderTargets::new();
    let exported = (9, metadata(1, 1));
    let told =
        populate_window_retargets(&mut targets, &mut views, 7, size(1, 1), 1, 2, exported, 1);
    assert!(told.is_ok());
    assert_eq!(views.len(), 4);
    assert!(![0, 1, 3].contains(&handle_of(&targets, 7)));
}

#[test]
fn drawn_handles_differ() {
    let views: EntityMap<ManualTextureView> = EntityMap::new();
    let first = draw_handle(&views, 1);
    assert!((0..64).any(|_| draw_handle(&views, 1) != first));
}

#[test]
fn texture_without_handle_is_handed_back() {
    let mut targets = RenderTargets::new();
    let mut views = EntityMap::new();
    let exported = (9, metadata(1, 1));
    let told =
        populate_window_retargets(&mut targets, &mut views, 1, size(1, 1), 1, 2, exported, 0);
    match told {
        Err(unused) => assert_eq!(unused.texture(), 2),
        Ok(msg) => panic!("{:?}", msg),
    }
    assert!(!targets.windows.contains_key(1));
    assert_eq!(views.len(), 0);
}

#[test]
fn primary_window_is_the_only_one() {
    assert_eq!(single(&vec![]), None);
    assert_eq!(single(&vec![4]), Some(4));
    assert_eq!(single(&vec![4, 5]), None);
    assert_eq!(WindowRef::Primary.normalize(Some(4)), Some(4));
    assert_eq!(WindowRef::Primary.normalize(None), None);
    assert_eq!(WindowRef::Entity(7).normalize(Some(4)), Some(7));
}

fn cameras() -> Vec<(u64, RenderTarget)> {
    vec![
        (11, RenderTarget::Window(WindowRef::Primary)),
        (12, RenderTarget::Image { image: 5, scale: 0 }),
        (13, RenderTarget::Window(WindowRef::Entity(WINDOW))),
        (14, RenderTarget::Colorless { width: 1, height: 1 }),
    ]
}

#[test]
fn cameras_are_turned_away_and_back() {
    let mut targets = RenderTargets::new();
    let mut views = EntityMap::new();
    populate(&mut targets, &mut views, WINDOW, size(640, 480), 70);
    let stand_in = targets.windows.get(WINDOW).unwrap().render_target;
    let mut turned = cameras();
    for _ in 0..3 {
        assert!(check_can_be_turned(&turned, &targets, Some(WINDOW)));
        targets_last(&mut turned, &mut targets, Some(WINDOW));
        assert_eq!(turned[0], (11, stand_in));
        assert_eq!(turned[1], cameras()[1]);
        assert_eq!(turned[2], (13, stand_in));
        assert_eq!(turned[3], cameras()[3]);
        assert_eq!(*targets.cameras.get(11).unwrap(), cameras()[0].1);
        targets_first(&mut turned, &mut targets);
        assert_eq!(turned, cameras());
        assert_eq!(*targets.cameras.get(13).unwrap(), stand_in);
    }
}

#[test]
fn camera_without_primary_window_stays() {
    let mut targets = RenderTargets::new();
    let mut turned = vec![(11, RenderTarget::Window(WindowRef::Primary))];
    assert!(check_can_be_turned(&turned, &targets, None));
    targets_last(&mut turned, &mut targets, None);
    assert_eq!(turned[0].1, RenderTarget::Window(WindowRef::Primary));
    assert!(!targets.cameras.contains_key(11));
}

#[test]
fn unknown_window_has_no_stand_in() {
    let targets = RenderTargets::new();
    assert!(!check_can_be_turned(&cameras(), &targets, None));
    assert!(!check_can_be_turned(&cameras(), &targets, Some(WINDOW)));
}

#[test]
fn turning_back_twice_changes_nothing() {
    let mut targets = RenderTargets::new();
    targets.cameras.insert(11, RenderTarget::TextureView(3));
    let mut turned = cameras();
    targets_first(&mut turned, &mut targets);
    assert_eq!(turned[0].1, RenderTarget::TextureView(3));
    assert_eq!(turned[1..], cameras()[1..]);
    targets_first(&mut turned, &mut targets);
    assert_eq!(turned, cameras());
    assert_eq!(*targets.cameras.get(11).unwrap(), RenderTarget::TextureView(3));
}

fn update(id: Option<u64>, width: u32) -> ViewportTextureUpdate {
    ViewportTextureUpdate {
        info: ExternalTextureInfo { owner_pid: 1, texture_id: id, inner: metadata(width, 4) },
    }
}

#[test]
fn texture_needs_a_number() {
    let mut targets = ViewportTargets::new();
    assert_eq!(texture_to_import(&update(None, 4).info), None);
    assert_eq!(texture_to_import(&update(Some(1), 4).info), Some(1));
    assert!(matches!(
        update(None, 4).observer(&mut targets, Ok(1), true),
        ViewportUpdate::NoId
    ));
    assert!(matches!(
        update(Some(1), 4).observer(
            &mut targets,
            Err(ExternalTextureImportError::InvalidPid),
            true,
        ),
        ViewportUpdate::ImportFailed { error: ExternalTextureImportError::InvalidPid }
    ));
    assert_eq!(targets.targets.len(), 0);
}

#[test]
fn new_texture_gets_an_image() {
    let mut targets = ViewportTargets::new();
    match update(Some(WINDOW), 4).observer(&mut targets, Ok(50), false) {
        ViewportUpdate::AddImage { id, width, height, texture } => {
            assert_eq!((id, width, height, texture), (WINDOW, 4, 4, 50));
            let created = targets.show(id, 60, texture);
            assert_eq!(created, ViewportTextureCreated { id: WINDOW });
        }
        _ => panic!("no new image"),
    }
    assert_eq!(
        *targets.targets.get(WINDOW).unwrap(),
        ViewportTarget { image: 60, texture: 50 },
    );
    match update(Some(WINDOW), 9).observer(&mut targets, Ok(51), true) {
        ViewportUpdate::Resize { image, size } => {
            assert_eq!(image, 60);
            assert_eq!(size, TextureSize { width: 9, height: 4, depth_or_array_layers: 1 });
        }
        _ => panic!("no resize"),
    }
    assert_eq!(
        *targets.targets.get(WINDOW).unwrap(),
        ViewportTarget { image: 60, texture: 51 },
    );
    assert!(matches!(
        update(Some(WINDOW), 9).observer(&mut targets, Ok(52), false),
        ViewportUpdate::AddImage { .. }
    ));
}

#[test]
fn first_viewport_shows_the_texture() {
    let mut targets = ViewportTargets::new();
    targets.show(WINDOW, 60, 50);
    let mut viewports = vec![GameViewport::scene(1), GameViewport::scene(2)];
    let mut nodes = EntityMap::new();
    nodes.insert(1, 0);
    nodes.insert(2, 0);
    let created = ViewportTextureCreated { id: WINDOW };
    update_game_viewport_texture_observer(created, &targets, &mut viewports, &mut nodes);
    assert_eq!(viewports[0].id, Some(WINDOW));
    assert_eq!(viewports[1].id, None);
    assert_eq!(nodes.get(1), Some(&60));
    assert_eq!(nodes.get(2), Some(&0));
}

#[test]
fn viewport_without_node_shows_nothing() {
    let mut targets = ViewportTargets::new();
    targets.show(WINDOW, 60, 50);
    let mut viewports = vec![GameViewport::scene(1)];
    let mut nodes: EntityMap<u64> = EntityMap::new();
    let created = ViewportTextureCreated { id: WINDOW };
    update_game_viewport_texture_observer(created, &targets, &mut viewports, &mut nodes);
    assert_eq!(viewports[0].id, None);
    nodes.insert(1, 0);
    let unknown = ViewportTextureCreated { id: 9 };
    update_game_viewport_texture_observer(unknown, &targets, &mut viewports, &mut nodes);
    assert_eq!(viewports[0].id, None);
    let mut none = vec![];
    update_game_viewport_texture_observer(created, &targets, &mut none, &mut nodes);
    assert_eq!(nodes.get(1), Some(&0));
}

fn frame(id: Option<u64>, focused: bool, changed: bool, cursors: usize) -> ViewportFrame {
    let mut viewport = GameViewport { id, ..GameViewport::scene(1) };
    viewport.set_focused(focused);
    ViewportFrame {
        viewport,
        changed,
        width: 30,
        height: 40,
        cursors: vec![Position { x: 7, y: 8 }; cursors],
    }
}

fn events() -> Vec<WindowEvent> {
    vec![
        WindowEvent::CursorMoved { window: 1, position: Position { x: 0, y: 0 }, delta: None },
        WindowEvent::WindowResized { window: 1, width: 1, height: 1 },
        WindowEvent::MouseWheel { window: 1, body: vec![] },
    ]
}

#[test]
fn focused_viewport_passes_events_on() {
    let mut game = GameProcess::new();
    let frames = vec![
        frame(Some(WINDOW), false, true, 3),
        frame(Some(6), true, false, 3),
        frame(Some(7), true, true, 3),
    ];
    assert!(send_events_to_game_viewport(&frames, &mut game, events()));
    assert_eq!(game.to_game.len(), 4);
    assert!(matches!(
        game.to_game[0],
        EditorMsg::WindowEvent(WindowEvent::WindowResized {
            window: WINDOW,
            width: 30,
            height: 40,
        })
    ));
    assert!(matches!(
        game.to_game[1],
        EditorMsg::WindowEvent(WindowEvent::CursorMoved {
            window: 6,
            position: Position { x: 7, y: 8 },
            delta: None,
        })
    ));
    assert!(matches!(
        game.to_game[2],
        EditorMsg::WindowEvent(WindowEvent::MouseWheel { window: 6, .. })
    ));
    assert!(matches!(
        game.to_game[3],
        EditorMsg::WindowEvent(WindowEvent::WindowResized { window: 7, .. })
    ));
}

#[test]
fn viewport_without_window_says_nothing() {
    let mut game = GameProcess::new();
    let frames = vec![frame(None, true, true, 3), frame(Some(0x5_0000_0000), true, true, 3)];
    assert!(!send_events_to_game_viewport(&frames, &mut game, events()));
    assert!(game.to_game.is_empty());
}

#[test]
fn events_need_a_focused_viewport() {
    let mut game = GameProcess::new();
    let frames = vec![frame(Some(WINDOW), false, false, 3)];
    assert!(!send_events_to_game_viewport(&frames, &mut game, events()));
    assert!(game.to_game.is_empty());
}

fn paths() -> RelationPaths {
    RelationPaths {
        children: "Children".to_string(),
        child_of: "ChildOf".to_string(),
        scene_info: "SceneComponentInfo".to_string(),
    }
}

fn component(path: &str, json: &str) -> Component {
    Component { path: path.to_string(), json: json.to_string() }
}

fn answer(sync: &mut EntitySync, components: Vec<Component>) -> SyncAction {
    let listed = sync.advance(SyncEvent::Listed { paths: vec!["x".to_string()] }, &paths());
    match listed {
        SyncAction::Ask { request: BrpRequest::GetComponents { components, strict, .. } } => {
            assert_eq!(components, vec!["x".to_string()]);
            assert!(!strict);
        }
        other => panic!("{:?}", other),
    }
    sync.advance(SyncEvent::Got { components: Some(components) }, &paths())
}

fn asked_for(action: &SyncAction) -> u64 {
    match action {
        SyncAction::Ask { request: BrpRequest::ListComponents { entity } } => *entity,
        other => panic!("{:?}", other),
    }
}

#[test]
fn entities_are_rebuilt_in_tree_order() {
    let mut sync = spawn_editor_sync(vec![1, 2], EntityMap::new());
    assert!(matches!(sync.advance(SyncEvent::Start, &paths()), SyncAction::Spawn));
    assert_eq!(asked_for(&sync.advance(SyncEvent::Spawned { editor: 101 }, &paths())), 1);
    let components = vec![
        component("Children", "[3, 4]"),
        component("Transform", "{}"),
        component("SceneComponentInfo", "null"),
    ];
    match answer(&mut sync, components) {
        SyncAction::Write { entity, components } => {
            assert_eq!(entity, 101);
            assert_eq!(components.len(), 1);
            assert_eq!(components[0].path, "Transform");
        }
        other => panic!("{:?}", other),
    }
    let mut order = vec![1];
    let mut next = sync.advance(SyncEvent::Written, &paths());
    let mut editor = 101;
    while !matches!(next, SyncAction::Finish) {
        assert!(matches!(next, SyncAction::Spawn));
        editor += 1;
        next = sync.advance(SyncEvent::Spawned { editor }, &paths());
        let game = asked_for(&next);
        order.push(game);
        let components = match game {
            3 => vec![component("ChildOf", "1"), component("Children", "[5]")],
            4 => vec![component("ChildOf", "1")],
            5 => vec![component("ChildOf", "3")],
            _ => vec![],
        };
        let mut action = answer(&mut sync, components);
        if let SyncAction::AddChild { parent, child } = action {
            assert_eq!(child, editor);
            assert_eq!(parent, if game == 5 { 102 } else { 101 });
            action = sync.advance(SyncEvent::ChildAdded, &paths());
        }
        assert!(matches!(action, SyncAction::Write { .. }));
        next = sync.advance(SyncEvent::Written, &paths());
    }
    assert_eq!(order, vec![1, 3, 5, 4, 2]);
    assert!(matches!(sync.step, SyncStep::Finished));
    let back = reverse_entities_map(&sync.entities_map);
    for game in order {
        assert_eq!(back.get(*sync.entities_map.get(game).unwrap()), Some(&game));
    }
}

#[test]
fn entity_is_not_spawned_twice() {
    let mut known = EntityMap::new();
    known.insert(1, 101);
    let mut sync = spawn_editor_sync(vec![1], known);
    assert_eq!(asked_for(&sync.advance(SyncEvent::Start, &paths())), 1);
    match answer(&mut sync, vec![]) {
        SyncAction::Write { entity, .. } => assert_eq!(entity, 101),
        other => panic!("{:?}", other),
    }
}

#[test]
fn finished_rebuilding_is_complete() {
    let mut known = EntityMap::new();
    known.insert(2, 102);
    known.insert(9, 109);
    let mut sync = spawn_editor_sync(vec![1, 2], known);
    let mut next = sync.advance(SyncEvent::Start, &paths());
    let mut editor = 200;
    let mut asked = vec![];
    while !matches!(next, SyncAction::Finish) {
        if matches!(next, SyncAction::Spawn) {
            editor += 1;
            next = sync.advance(SyncEvent::Spawned { editor }, &paths());
        }
        let game = asked_for(&next);
        asked.push(game);
        let components = match game {
            1 => vec![component("Children", "[3, 9]")],
            _ => vec![],
        };
        assert!(matches!(answer(&mut sync, components), SyncAction::Write { .. }));
        next = sync.advance(SyncEvent::Written, &paths());
    }
    assert_eq!(asked, vec![1, 3, 9, 2]);
    assert_eq!(sync.entities_map.len(), 4);
    assert_eq!(sync.entities_map.get(1), Some(&201));
    assert_eq!(sync.entities_map.get(2), Some(&102));
    assert_eq!(sync.entities_map.get(3), Some(&202));
    assert_eq!(sync.entities_map.get(9), Some(&109));
}

#[test]
fn nothing_to_rebuild() {
    let mut sync = spawn_editor_sync(vec![], EntityMap::new());
    assert!(matches!(sync.advance(SyncEvent::Start, &paths()), SyncAction::Finish));
}

fn waiting() -> EntitySync {
    let mut sync = spawn_editor_sync(vec![1], EntityMap::new());
    sync.advance(SyncEvent::Start, &paths());
    sync.advance(SyncEvent::Spawned { editor: 101 }, &paths());
    sync
}

fn failure(action: SyncAction) -> SyncError {
    match action {
        SyncAction::Fail { error } => error,
        other => panic!("{:?}", other),
    }
}

#[test]
fn rebuilding_fails_on_what_makes_no_sense() {
    let mut sync = waiting();
    sync.advance(SyncEvent::Listed { paths: vec![] }, &paths());
    let strict = sync.advance(SyncEvent::Got { components: None }, &paths());
    assert_eq!(failure(strict), SyncError::NotLenient);
    for text in ["\"a\"", "-1", "[1]", "4294967296", "1.5", ""] {
        let action = answer(&mut waiting(), vec![component("ChildOf", text)]);
        assert_eq!(failure(action), SyncError::MalformedParent, "{}", text);
    }
    let unknown = answer(&mut waiting(), vec![component("ChildOf", " 9 ")]);
    assert_eq!(failure(unknown), SyncError::UnknownParent(9));
    for text in ["3", "[0]", "[3, \"a\"]", "nonsense"] {
        let mut sync = waiting();
        answer(&mut sync, vec![component("Children", text)]);
        let action = sync.advance(SyncEvent::Written, &paths());
        assert_eq!(failure(action), SyncError::MalformedChildren, "{}", text);
    }
}

#[test]
fn parents_and_children_that_were_told() {
    let mut known = EntityMap::new();
    known.insert(1, 101);
    assert_eq!(find_parent(Some(1), &known), Ok(101));
    assert_eq!(find_parent(Some(2), &known), Err(SyncError::UnknownParent(2)));
    assert_eq!(find_parent(Some(0), &known), Err(SyncError::MalformedParent));
    assert_eq!(find_parent(None, &known), Err(SyncError::MalformedParent));
    assert_eq!(check_children(Some(vec![1, 2])), Some(vec![1, 2]));
    assert_eq!(check_children(Some(vec![])), Some(vec![]));
    assert_eq!(check_children(Some(vec![1, 0x1_0000_0000])), None);
    assert_eq!(check_children(None), None);
}

#[test]
fn scene_is_reset_entity_by_entity() {
    match marked_entities("game::SceneEntity".to_string()) {
        BrpRequest::Query { with, strict } => {
            assert_eq!(with, vec!["game::SceneEntity".to_string()]);
            assert!(!strict);
        }
        other => panic!("{:?}", other),
    }
    let requests = reset_scene(&vec![4, 2]);
    assert_eq!(requests.len(), 2);
    assert!(matches!(requests[0], BrpRequest::Despawn { entity: 4 }));
    assert!(matches!(requests[1], BrpRequest::Despawn { entity: 2 }));
}
