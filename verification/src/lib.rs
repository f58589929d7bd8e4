//! The window-lifecycle and placement rules of a quick-access launcher: where
//! the popup window goes, what a hotkey or a tray entry asks for, when the
//! login-launch registration changes, and what the settings store returns.

pub mod autostart;
pub mod geometry;
pub mod lifecycle;
pub mod settings;
pub mod shortcut_map;
pub mod shortcuts;
pub mod tray;

pub use settings::Settings;
