//! Paste injection for Linux desktops: session detection, focus tracking,
//! keystroke strategies and clipboard publishing, planned as data and decided
//! by verified functions. The operating system work itself is done by the
//! caller, which performs each planned step and reports how it went.

pub mod error;
pub mod text;
pub mod session;
pub mod shortcut_setup;
pub mod script;
pub mod subprocess;
pub mod config_manager;
pub mod focus_manager;
pub mod input_simulator;
pub mod gif_manager;

pub use config_manager::ConfigManager;
pub use focus_manager::{restore_focused_window, save_focused_window};
pub use gif_manager::{paste_gif_to_clipboard, paste_gif_to_clipboard_with_uri};
pub use session::{get_session_type, is_wayland, is_x11, SessionType};
