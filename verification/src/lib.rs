//! Core of a desktop quick-launcher overlay: the panel visibility state
//! machine, the global-hotkey dispatch logic, the target registry, and the
//! parsing of the installed-application catalog. The surrounding process
//! performs the OS calls (showing the window, registering chords with the
//! system, spawning processes) and hands this crate plain values.

pub mod config;
pub mod hotkeys;
pub mod installed_apps;
pub mod panel;

pub use config::AppState;
