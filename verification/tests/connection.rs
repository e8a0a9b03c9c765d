use editor_link::collections::{EntityMap, NameMap};
use editor_link::editor_api;
use editor_link::external_texture::{TextureDimension, TextureSize};
use editor_link::game_process::{
    accept_game, launch_command, process_game_messages, start_game_process_observer, EditorAction,
    GameProcess, NoSender, StartGameProcess,
};
use editor_link::integration::{
    extract_systems, react_to_editor_messages, runner, DisabledSystems, EditorProcess, GameAction,
    RunnerPhase, RunnerState,
};
use editor_link::ipc::{BindOutcome, ChannelError, IpcChannel, RecvOutcome, BUFFER_SIZE, SOCKET_PATH};
use editor_link::messages::{
    EditorMsg, GameMsg, MalformedEvent, ReflectedEvent, ToggleSystemEvent, EDITOR_SERVER_NAME_VAR,
};
use editor_link::shared_texture::ExternalTextureInfo;
use editor_link::system_menu::{system_menu, toggle_system, SystemCheckbox};
use editor_link::texture_format::TextureFormat;
use editor_link::texture_share::TextureMetadata;
use editor_link::window_event::{Position, Window, WindowEvent};

fn names(list: &[&str]) -> Vec<String> {
    list.iter().map(|name| name.to_string()).collect()
}

fn metadata(width: u32, height: u32) -> TextureMetadata {
    TextureMetadata {
        image_type: 1,
        vk_format: 43,
        extent_width: width,
        extent_height: height,
        extent_depth: 1,
        mip_levels: 1,
        array_layers: 1,
        samples: 1,
        tiling: 0,
        vk_usage: 21,
        allocation_size: 4096,
        memory_type_index: 0,
        wgpu_format: TextureFormat::Rgba8UnormSrgb,
        wgpu_dimension: TextureDimension::D2,
        wgpu_mip_level_count: 1,
        wgpu_sample_count: 1,
        wgpu_usage: 21,
        wgpu_size: TextureSize { width, height, depth_or_array_layers: 1 },
        view_formats: vec![],
        image_fd: 9,
    }
}

fn image(id: u64) -> GameMsg {
    GameMsg::Image(ExternalTextureInfo {
        owner_pid: 1,
        texture_id: Some(id),
        inner: metadata(4, 4),
    })
}

fn event(id: &str) -> ReflectedEvent {
    ReflectedEvent::from_event(id.to_string(), vec![1, 2, 3])
}

fn shown<T: std::fmt::Debug>(value: &T) -> String {
    format!("{:?}", value)
}

#[test]
fn entity_map_keeps_one_value_per_key() {
    let mut map: EntityMap<u32> = EntityMap::new();
    assert_eq!(map.len(), 0);
    map.insert(10, 1);
    map.insert(20, 2);
    map.insert(10, 3);
    assert_eq!(map.len(), 2);
    assert_eq!(map.key_at(0), 10);
    assert_eq!(map.key_at(1), 20);
    assert_eq!(map.get(10), Some(&3));
    assert_eq!(map.get(20), Some(&2));
    assert_eq!(map.get(30), None);
    assert!(map.contains_key(20));
    assert!(!map.contains_key(30));
    let mut other = 7;
    map.swap(20, &mut other);
    assert_eq!((other, map.get(20)), (2, Some(&7)));
    map.swap(30, &mut other);
    assert_eq!((other, map.len()), (2, 2));
}

#[test]
fn name_map_keeps_one_value_per_name() {
    let mut map: NameMap<u32> = NameMap::new();
    map.insert("b".to_string(), 1);
    map.insert("a".to_string(), 2);
    map.insert("b".to_string(), 3);
    assert_eq!(map.get(&"b".to_string()), Some(&3));
    assert_eq!(map.get(&"a".to_string()), Some(&2));
    assert_eq!(map.get(&"c".to_string()), None);
    let mut found = map.names();
    found.sort();
    assert_eq!(found, names(&["a", "b"]));
}

#[test]
fn reflected_event_keeps_path_and_data() {
    let event = event("crate::Event");
    assert_eq!(event.id(), "crate::Event");
    assert_eq!(event.data(), &vec![1, 2, 3]);
    match EditorMsg::from(event) {
        EditorMsg::ReflectedEvent(event) => assert_eq!(event.id(), "crate::Event"),
        other => panic!("{:?}", other),
    }
}

#[test]
fn toggle_event_is_read_as_written() {
    for state in [true, false] {
        let bytes = ToggleSystemEvent { name: "physics".to_string(), state }.encode();
        let read = ToggleSystemEvent::decode(&bytes).unwrap();
        assert_eq!((read.name.as_str(), read.state), ("physics", state));
    }
    let bytes = ToggleSystemEvent { name: "ab".to_string(), state: true }.encode();
    assert_eq!(bytes, vec![2, b'a', b'b', 1]);
    let empty = ToggleSystemEvent { name: String::new(), state: false }.encode();
    assert_eq!(empty, vec![0, 0]);
}

#[test]
fn malformed_toggle_event_is_refused() {
    assert!(matches!(ToggleSystemEvent::decode(&vec![]), Err(MalformedEvent)));
    assert!(matches!(ToggleSystemEvent::decode(&vec![5, b'a']), Err(MalformedEvent)));
    assert!(matches!(ToggleSystemEvent::decode(&vec![1, b'a', 2]), Err(MalformedEvent)));
    assert!(matches!(ToggleSystemEvent::from_decoded(None), Err(MalformedEvent)));
    let event = ToggleSystemEvent::from_decoded(Some(("a".to_string(), true))).unwrap();
    assert_eq!((event.name.as_str(), event.state), ("a", true));
}

#[test]
fn game_is_started_with_the_name_of_the_server() {
    let start = StartGameProcess { workspace_path: "/home/games/pong".to_string() };
    let command = launch_command(&start, "server-1".to_string());
    assert_eq!(command.program, "cargo");
    assert_eq!(command.args, names(&["run"]));
    assert_eq!(command.current_dir, "/home/games/pong");
    assert_eq!(command.env_name, "BEVY_EDITOR_SERVER_NAME");
    assert_eq!(command.env_name, EDITOR_SERVER_NAME_VAR);
    assert_eq!(command.env_value, "server-1");
}

#[test]
fn game_of_the_fixed_workspace_is_named() {
    let command = editor_api::launch_command("server-2".to_string());
    assert_eq!(command.program, "cargo");
    assert_eq!(command.args, names(&["run", "-p", "game"]));
    assert_eq!(command.current_dir, "/workspaces/bevy-editor-experiments");
    assert_eq!(command.env_value, "server-2");
}

#[test]
fn first_message_has_to_be_the_sender() {
    match accept_game(GameMsg::Sender(12)) {
        Ok((sender, game)) => {
            assert_eq!(sender, 12);
            assert!(game.to_game.is_empty() && game.msg_queue.is_empty());
            assert!(game.systems.names().is_empty());
        }
        Err(_) => panic!("refused"),
    }
    assert!(matches!(accept_game(image(1)), Err(NoSender)));
    let systems = GameMsg::WorldInfo { systems: vec![] };
    assert!(matches!(accept_game(systems), Err(NoSender)));
}

#[test]
fn new_game_takes_the_place_of_the_running_one() {
    let mut running: Option<GameProcess> = None;
    assert!(start_game_process_observer(&mut running, GameProcess::new()).is_none());
    assert!(running.is_some());
    if let Some(game) = &mut running {
        game.send(EditorMsg::Pause);
    }
    let killed = start_game_process_observer(&mut running, GameProcess::new());
    assert_eq!(killed.unwrap().to_game.len(), 1);
    assert_eq!(running.unwrap().to_game.len(), 0);
}

#[test]
fn messages_to_the_game_keep_their_order() {
    let mut game = GameProcess::new();
    game.send(EditorMsg::Pause);
    game.trigger(event("e"));
    game.send(EditorMsg::Continue);
    assert_eq!(game.to_game.len(), 3);
    assert!(matches!(game.to_game[0], EditorMsg::Pause));
    assert!(matches!(&game.to_game[1], EditorMsg::ReflectedEvent(event) if event.id() == "e"));
    assert!(matches!(game.to_game[2], EditorMsg::Continue));
}

#[test]
fn messages_of_the_game_are_handed_out_once() {
    let mut game = GameProcess::new();
    assert!(game.receive(Ok(image(1))));
    assert!(game.receive(Ok(image(2))));
    assert!(!game.receive(Err(())));
    let mut batch = vec![image(99)];
    game.get_messages(&mut batch);
    assert_eq!(batch.len(), 2);
    assert!(matches!(&batch[0], GameMsg::Image(info) if info.texture_id == Some(1)));
    game.get_messages(&mut batch);
    assert!(batch.is_empty());
}

#[test]
fn ended_game_is_removed() {
    let mut game = GameProcess::new();
    game.receive(Ok(image(1)));
    let mut queue = vec![];
    let actions = process_game_messages(&mut game, true, &mut queue);
    assert_eq!(actions.len(), 1);
    assert!(matches!(actions[0], EditorAction::RemoveGame));
    assert_eq!(game.msg_queue.len(), 1);
}

#[test]
fn messages_of_the_game_become_actions() {
    let mut game = GameProcess::new();
    game.receive(Ok(GameMsg::Sender(1)));
    game.receive(Ok(image(5)));
    game.receive(Ok(GameMsg::WorldInfo { systems: names(&["b", "a", "b"]) }));
    game.receive(Ok(GameMsg::ReflectedEvent(event("e"))));
    let mut queue = vec![];
    let actions = process_game_messages(&mut game, false, &mut queue);
    assert_eq!(actions.len(), 3);
    assert!(matches!(
        &actions[0],
        EditorAction::ViewportTextureUpdate { info } if info.texture_id == Some(5)
    ));
    assert!(matches!(actions[1], EditorAction::GotSystems));
    assert!(matches!(&actions[2], EditorAction::Trigger { event } if event.id() == "e"));
    assert_eq!(game.systems.names().len(), 2);
    assert!(!game.systems.get(&"a".to_string()).unwrap().is_running);
    assert!(game.msg_queue.is_empty() && queue.is_empty());
}

#[test]
fn last_announcement_counts() {
    let mut game = GameProcess::new();
    let mut queue = vec![];
    game.receive(Ok(GameMsg::WorldInfo { systems: names(&["a", "b"]) }));
    game.receive(Ok(GameMsg::WorldInfo { systems: names(&["c"]) }));
    game.receive(Ok(image(1)));
    process_game_messages(&mut game, false, &mut queue);
    assert_eq!(game.systems.names(), names(&["c"]));
}

#[test]
fn batches_of_the_game_make_no_difference() {
    let mut queue = vec![];
    let mut at_once = GameProcess::new();
    at_once.receive(Ok(image(1)));
    at_once.receive(Ok(GameMsg::WorldInfo { systems: names(&["a"]) }));
    let together = process_game_messages(&mut at_once, false, &mut queue).len();
    let mut bit_by_bit = GameProcess::new();
    bit_by_bit.receive(Ok(image(1)));
    let first = process_game_messages(&mut bit_by_bit, false, &mut queue).len();
    bit_by_bit.receive(Ok(GameMsg::WorldInfo { systems: names(&["a"]) }));
    let second = process_game_messages(&mut bit_by_bit, false, &mut queue).len();
    assert_eq!(together, first + second);
    assert_eq!(at_once.systems.names(), bit_by_bit.systems.names());
}

#[test]
fn editor_hears_first_how_to_reach_the_game() {
    let mut editor = EditorProcess::new(77);
    editor.send(GameMsg::WorldInfo { systems: vec![] });
    assert_eq!(editor.to_editor.len(), 2);
    assert!(matches!(editor.to_editor[0], GameMsg::Sender(77)));
}

#[test]
fn lost_editor_counts_as_exit() {
    let mut editor = EditorProcess::new(1);
    assert!(editor.receive(Ok(EditorMsg::Pause)));
    assert!(!editor.receive(Err(())));
    let mut batch = vec![EditorMsg::NextFrame];
    editor.get_messages(&mut batch);
    assert_eq!(batch.len(), 2);
    assert!(matches!(batch[0], EditorMsg::Pause));
    assert!(matches!(batch[1], EditorMsg::Exit));
    assert!(editor.msg_queue.is_empty());
}

#[test]
fn runner_goes_round() {
    let running = Some(RunnerState::default());
    assert_eq!(runner(RunnerPhase::IntegrationStartup, running), RunnerPhase::PreSimulation);
    assert_eq!(runner(RunnerPhase::PreSimulation, running), RunnerPhase::Simulation);
    assert_eq!(runner(RunnerPhase::Simulation, running), RunnerPhase::PostSimulation);
    assert_eq!(runner(RunnerPhase::PostSimulation, running), RunnerPhase::SubApps);
    assert_eq!(runner(RunnerPhase::SubApps, running), RunnerPhase::PreSimulation);
    assert_eq!(runner(RunnerPhase::PreSimulation, None), RunnerPhase::Simulation);
    let exit = Some(RunnerState { exit: true, paused: false });
    assert_eq!(runner(RunnerPhase::PreSimulation, exit), RunnerPhase::Finished);
    assert_eq!(runner(RunnerPhase::PostSimulation, exit), RunnerPhase::SubApps);
    assert_eq!(runner(RunnerPhase::Finished, exit), RunnerPhase::Finished);
}

#[test]
fn paused_game_waits_even_to_exit() {
    let waiting = Some(RunnerState { exit: true, paused: true });
    assert_eq!(runner(RunnerPhase::PreSimulation, waiting), RunnerPhase::PreSimulation);
}

#[test]
fn systems_are_announced_and_switched_on() {
    let mut editor = EditorProcess::new(1);
    let mut switches = DisabledSystems::new();
    extract_systems(names(&["a", "b", "a"]), &mut editor, &mut switches);
    assert_eq!(switches.len(), 3);
    assert!(switches.should_run(0) && switches.should_run(1) && switches.should_run(2));
    match editor.to_editor.last() {
        Some(GameMsg::WorldInfo { systems }) => {
            let mut told = systems.clone();
            told.sort();
            assert_eq!(told, names(&["a", "b"]));
        }
        other => panic!("{:?}", other),
    }
}

#[test]
fn name_stands_for_its_last_system() {
    let mut editor = EditorProcess::new(1);
    let mut switches = DisabledSystems::new();
    extract_systems(names(&["a", "b", "a"]), &mut editor, &mut switches);
    switches.modify(&"a".to_string(), false);
    assert!(switches.should_run(0));
    assert!(switches.should_run(1));
    assert!(!switches.should_run(2));
    switches.modify(&"unknown".to_string(), false);
    assert!(switches.should_run(0) && switches.should_run(1));
    switches.modify(&"a".to_string(), true);
    assert!(switches.should_run(2));
}

#[test]
fn editor_knows_the_announced_systems() {
    let mut editor = EditorProcess::new(1);
    let mut switches = DisabledSystems::new();
    extract_systems(names(&["b", "a"]), &mut editor, &mut switches);
    let mut game = GameProcess::new();
    game.receive(Ok(editor.to_editor.pop().unwrap()));
    process_game_messages(&mut game, false, &mut vec![]);
    let mut known = game.systems.names();
    known.sort();
    assert_eq!(known, names(&["a", "b"]));
}

struct Game {
    editor: EditorProcess,
    windows: EntityMap<Window>,
    state: RunnerState,
    switches: DisabledSystems,
}

fn game() -> Game {
    let mut windows = EntityMap::new();
    windows.insert(5, Window { physical_width: 1, physical_height: 1, physical_cursor: None });
    let mut editor = EditorProcess::new(1);
    let mut switches = DisabledSystems::new();
    extract_systems(names(&["a", "b"]), &mut editor, &mut switches);
    Game { editor, windows, state: RunnerState::default(), switches }
}

fn react(game: &mut Game, msgs: Vec<EditorMsg>) -> Vec<GameAction> {
    for msg in msgs {
        game.editor.receive(Ok(msg));
    }
    react_to_editor_messages(
        &mut game.editor,
        &mut game.windows,
        &mut game.state,
        &mut game.switches,
        &mut vec![],
    )
}

#[test]
fn game_does_what_the_editor_says() {
    let mut game = game();
    let moved = WindowEvent::CursorMoved {
        window: 5,
        position: Position { x: 1, y: 2 },
        delta: None,
    };
    let lost = WindowEvent::WindowResized { window: 6, width: 0, height: 0 };
    let actions = react(
        &mut game,
        vec![
            EditorMsg::NextFrame,
            EditorMsg::WindowEvent(moved),
            EditorMsg::WindowEvent(lost),
            EditorMsg::ReflectedEvent(event("e")),
            EditorMsg::ModifySystem { name: "b".to_string(), state: false },
            EditorMsg::ModifySystem { name: "nobody".to_string(), state: false },
            EditorMsg::Pause,
        ],
    );
    assert_eq!(actions.len(), 3);
    assert!(matches!(&actions[0], GameAction::WriteEvent { write } if write.own_kind));
    assert!(matches!(actions[1], GameAction::NoSuchWindow { window: 6 }));
    assert!(matches!(&actions[2], GameAction::Trigger { event } if event.id() == "e"));
    assert_eq!(game.windows.get(5).unwrap().physical_cursor, Some(Position { x: 1, y: 2 }));
    assert!(game.switches.should_run(0));
    assert!(!game.switches.should_run(1));
    assert_eq!(game.state, RunnerState { exit: false, paused: true });
    assert!(game.editor.msg_queue.is_empty());
}

#[test]
fn last_of_pause_and_continue_decides() {
    let mut game = game();
    react(&mut game, vec![EditorMsg::Pause, EditorMsg::Continue, EditorMsg::NextFrame]);
    assert!(!game.state.paused);
    react(&mut game, vec![EditorMsg::Continue, EditorMsg::Pause, EditorMsg::Exit]);
    assert!(game.state.paused);
}

#[test]
fn last_switching_of_a_system_decides() {
    let switch = |name: &str, state: bool| {
        EditorMsg::ModifySystem { name: name.to_string(), state }
    };
    let mut game = game();
    react(
        &mut game,
        vec![
            switch("b", true),
            switch("a", true),
            switch("a", false),
            switch("b", false),
            switch("b", true),
            EditorMsg::NextFrame,
        ],
    );
    assert!(!game.switches.should_run(0));
    assert!(game.switches.should_run(1));
    react(&mut game, vec![switch("b", false), EditorMsg::Pause]);
    assert!(!game.switches.should_run(0));
    assert!(!game.switches.should_run(1));
}

#[test]
fn exit_stands_and_lost_editor_ends_the_game() {
    let mut game = game();
    react(&mut game, vec![EditorMsg::Exit, EditorMsg::Continue]);
    assert!(game.state.exit);
    react(&mut game, vec![EditorMsg::NextFrame]);
    assert!(game.state.exit);
    let mut other = self::game();
    other.editor.receive(Err(()));
    react(&mut other, vec![]);
    assert_eq!(runner(RunnerPhase::PreSimulation, Some(other.state)), RunnerPhase::Finished);
}

#[test]
fn batches_of_the_editor_make_no_difference() {
    let mut at_once = game();
    react(&mut at_once, vec![EditorMsg::Pause, EditorMsg::Exit, EditorMsg::Continue]);
    let mut bit_by_bit = game();
    react(&mut bit_by_bit, vec![EditorMsg::Pause]);
    react(&mut bit_by_bit, vec![EditorMsg::Exit, EditorMsg::Continue]);
    assert_eq!(at_once.state, bit_by_bit.state);
}

#[test]
fn menu_is_in_dictionary_order() {
    let mut game = GameProcess::new();
    let systems = names(&["b::z", "a", "Z", "ab", "\u{e9}", "a"]);
    game.receive(Ok(GameMsg::WorldInfo { systems }));
    process_game_messages(&mut game, false, &mut vec![]);
    let menu = system_menu(&game);
    let shown: Vec<&str> = menu.iter().map(|checkbox| checkbox.name.as_str()).collect();
    assert_eq!(shown, vec!["Z", "a", "ab", "b::z", "\u{e9}"]);
    assert!(menu.iter().all(|checkbox| checkbox.checked));
}

#[test]
fn menu_order_does_not_depend_on_the_announcement() {
    let mut menus = vec![];
    for order in [["x", "y", "z"], ["z", "y", "x"], ["y", "z", "x"]] {
        let mut game = GameProcess::new();
        game.receive(Ok(GameMsg::WorldInfo { systems: names(&order) }));
        process_game_messages(&mut game, false, &mut vec![]);
        menus.push(shown(&system_menu(&game)));
    }
    assert_eq!(menus[0], menus[1]);
    assert_eq!(menus[1], menus[2]);
}

#[test]
fn toggled_checkbox_tells_the_game() {
    let mut game = GameProcess::new();
    let mut checkbox = SystemCheckbox { name: "a".to_string(), checked: true };
    let path = "editor_common::ToggleSystemEvent".to_string();
    toggle_system(&mut game, &mut checkbox, false, path);
    assert!(!checkbox.checked);
    match game.to_game.pop() {
        Some(EditorMsg::ReflectedEvent(event)) => {
            assert_eq!(event.id(), "editor_common::ToggleSystemEvent");
            let toggle = ToggleSystemEvent::decode(event.data()).unwrap();
            assert_eq!((toggle.name.as_str(), toggle.state), ("a", false));
        }
        other => panic!("{:?}", other),
    }
}

#[test]
fn channel_is_owned_by_who_came_first() {
    assert_eq!(SOCKET_PATH, "/tmp/bevy.sock");
    assert_eq!(BUFFER_SIZE, 8 * 1024);
    assert!(IpcChannel::open(BindOutcome::Bound).ok().unwrap().drop_socket);
    let second = IpcChannel::open(BindOutcome::AddrInUse).ok().unwrap();
    assert!(!second.drop_socket);
    assert_eq!(second.buffer, vec![0; 8192]);
    assert!(matches!(IpcChannel::open(BindOutcome::Failed), Err(ChannelError)));
}

#[test]
fn message_is_read_as_sent() {
    let mut channel = IpcChannel::open(BindOutcome::Bound).ok().unwrap();
    assert_eq!(channel.send(&vec![1, 2, 3]), Ok(3));
    assert_eq!(channel.recv(RecvOutcome::Received(3)), Ok(Some(vec![1, 2, 3])));
    assert_eq!(channel.send(&vec![9]), Ok(1));
    assert_eq!(channel.buffer[..4], [9, 2, 3, 0]);
    assert_eq!(channel.recv(RecvOutcome::Received(0)), Ok(Some(vec![])));
    assert_eq!(channel.recv(RecvOutcome::WouldBlock), Ok(None));
    assert_eq!(channel.recv(RecvOutcome::Failed), Err(ChannelError));
}

#[test]
fn long_message_is_refused() {
    let mut channel = IpcChannel::open(BindOutcome::Bound).ok().unwrap();
    assert_eq!(channel.send(&vec![1; 8192]), Ok(8192));
    assert_eq!(channel.send(&vec![2; 8193]), Err(ChannelError));
    assert_eq!(channel.buffer, vec![1; 8192]);
}

#[test]
fn frame_tells_the_game_all_events() {
    let mut game = editor_api::GameProcess::new();
    assert!(game.receive(Ok(editor_api::GameMsg::Sender(1))));
    assert!(game.receive(Ok(editor_api::GameMsg::Image(metadata(3, 2)))));
    assert!(game.receive(Ok(editor_api::GameMsg::ProcessInfo { systems: vec![] })));
    assert!(!game.receive(Err(())));
    let events = vec![
        WindowEvent::CursorLeft { window: 1 },
        WindowEvent::WindowResized { window: 1, width: 0, height: 0 },
    ];
    let images = editor_api::sync_world(&mut game, events, true, true);
    assert_eq!(images.len(), 1);
    assert_eq!(images[0].wgpu_size.width, 3);
    assert!(game.msg_queue.is_empty());
    assert_eq!(game.to_game.len(), 5);
    assert!(matches!(game.to_game[0], EditorMsg::NextFrame));
    assert!(matches!(game.to_game[1], EditorMsg::WindowEvent(WindowEvent::CursorLeft { .. })));
    assert!(matches!(
        game.to_game[2],
        EditorMsg::WindowEvent(WindowEvent::WindowResized { .. })
    ));
    assert!(matches!(game.to_game[3], EditorMsg::Pause));
    assert!(matches!(game.to_game[4], EditorMsg::Continue));
}

#[test]
fn quiet_frame_only_begins() {
    let mut game = editor_api::GameProcess::new();
    assert!(editor_api::sync_world(&mut game, vec![], false, false).is_empty());
    assert_eq!(game.to_game.len(), 1);
}

#[test]
fn round_with_a_single_window() {
    let mut editor = EditorProcess::new(1);
    let mut switches = DisabledSystems::new();
    extract_systems(names(&["a"]), &mut editor, &mut switches);
    let mut window = Window { physical_width: 1, physical_height: 1, physical_cursor: None };
    let mut state = RunnerState::default();
    let msgs = vec![
        EditorMsg::NextFrame,
        EditorMsg::WindowEvent(WindowEvent::CursorMoved {
            window: 1,
            position: Position { x: 3, y: 4 },
            delta: None,
        }),
        EditorMsg::ModifySystem { name: "a".to_string(), state: false },
        EditorMsg::ReflectedEvent(event("e")),
        EditorMsg::Pause,
        EditorMsg::Exit,
    ];
    let actions =
        editor_api::work_off_messages(msgs, 5, &mut window, &mut state, &mut switches);
    assert_eq!(actions.len(), 2);
    assert!(matches!(
        &actions[0],
        editor_api::WindowAction::WriteEvent { write }
            if !write.own_kind && matches!(write.event, WindowEvent::CursorMoved { window: 5, .. })
    ));
    assert!(matches!(&actions[1], editor_api::WindowAction::Trigger { .. }));
    assert_eq!(window.physical_cursor, Some(Position { x: 3, y: 4 }));
    assert!(!switches.should_run(0));
    assert_eq!(state, RunnerState { exit: true, paused: true });
    editor_api::work_off_messages(
        vec![EditorMsg::Continue],
        5,
        &mut window,
        &mut state,
        &mut switches,
    );
    assert_eq!(state, RunnerState { exit: true, paused: false });
}

#[test]
fn rounds_end_even_while_paused() {
    let state = RunnerState { exit: true, paused: true };
    let plan = editor_api::runner(state, false);
    assert!(!plan.update && plan.last);
    let plan = editor_api::runner(RunnerState::default(), false);
    assert!(plan.update && !plan.last);
    assert!(editor_api::runner(RunnerState::default(), true).last);
}
