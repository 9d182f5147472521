//! The verified models behind the terminal interface.

pub mod actions;
pub mod app;
pub mod editor;
pub mod entries;
pub mod event;
pub mod keymap;
pub mod messages;
pub mod overlay;
pub mod popout;
pub mod model;
pub mod screens;
pub mod search;
pub mod state;
pub mod statusbar;
pub mod statusline;
pub mod types;
