//! Decision and formatting logic of the DeepSeek Harness tray launcher.
pub mod text;
pub mod version;
pub mod wide;
pub mod command;
pub mod dsh;
pub mod ownership;
pub mod detect;
pub mod origin;
pub mod registry;
pub mod controller;
pub mod updater;
pub mod process;
pub mod logger;
pub mod paths;
pub mod state;
pub mod tabs;
pub mod search;
