# editor_link

Running a game under the control of an editor in another process.

The editor starts the game and tells it, through an environment variable, how to reach the editor.
From then on the two exchange messages. The game draws its windows into textures whose memory the
editor imports and shows, and the editor passes window events on to the windows that it shows.

## Layout

- `src/` is the library, verified with Verus. It decides, computes and keeps the state:
  - `collections`: tables keyed by entities and by names
  - `vulkan`, `texture_format`, `external_texture`: numbers, flags, formats and memory types
  - `texture_share`, `texture_build`, `shared_texture`: sharing a texture between processes, one
    request to the device at a time
  - `window_event`: window events, whom they are addressed to, and what they change
  - `messages`, `game_process`, `integration`: what the two processes say to each other, and what
    each of them does about it
  - `render_targets`, `viewport`: the game's textures on both ends
  - `system_menu`, `entity_sync`: the game's systems and entities in the editor
  - `editor_api`, `ipc`: an editor and a game in one fixed workspace, and a channel of datagrams
- `app/` is the program around it: processes, sockets, the device and the engine's worlds.
  Beyond the engine's features that `Cargo.toml` names, the library needs none; the program also
  takes `bevy_ui`, `bevy_ui_widgets`, `bevy_scene`, `bevy_feathers`, `bevy_dev_tools`,
  `bevy_picking`, `bevy_sprite`, `bevy_gizmos`, `free_camera` and a windowing backend.
- `tests/` run the library.

Entities and floating-point numbers appear in the library as their bit patterns, and images,
textures and senders as numbers that the program gives them.
