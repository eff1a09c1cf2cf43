//! Multi-window input synchronization and layout engine.
//!
//! The library keeps a registry of application windows matched by title,
//! designates one of them as the main window, mirrors physical keyboard
//! input to the secondary windows as synthetic events, tiles the windows
//! on a work area, promotes a focused secondary window to main, dispatches
//! global shortcuts, and plays back scripted action sequences.
//!
//! Everything here is pure decision logic: the operating system's window
//! and input service is driven by a host program, which feeds the engine
//! window enumerations, key-state snapshots and focus queries, and carries
//! out the [`command::Command`] values the engine hands back.

pub mod bot;
pub mod command;
pub mod config;
pub mod engine;
pub mod geometry;
pub mod keys;
pub mod layout;
pub mod mirror;
pub mod registry;
pub mod shortcuts;
pub mod styles;
pub mod swap;

pub use bot::BotState;
pub use command::Command;
pub use config::{BotAction, Config, Duration, LayoutOptions, Mode, Shortcut};
pub use engine::App;
pub use geometry::Rect;
pub use keys::{default_keybind, default_remap, default_skip, Key};
pub use registry::{TrackedWindow, WindowRegistry};
