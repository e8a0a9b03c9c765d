//! Running a game under the control of an editor in another process.

pub mod collections;
pub mod editor_api;
pub mod entity_sync;
pub mod external_texture;
pub mod game_process;
pub mod integration;
pub mod ipc;
pub mod messages;
pub mod render_targets;
pub mod shared_texture;
pub mod system_menu;
pub mod texture_build;
pub mod texture_format;
pub mod texture_share;
pub mod viewport;
pub mod vulkan;
pub mod window_event;
