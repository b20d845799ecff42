//! The reactive core of a keyboard-driven terminal client for a background
//! torrent engine: input translation, the application state, the reducer that
//! drains a queue of actions, and the effects that talk to the engine.
//!
//! The library performs no input or output itself. Whatever needs the engine,
//! the file system or the clock is handed to the caller as a request, and the
//! caller hands the reply back.

pub mod text;
pub mod modes;
pub mod indices;
pub mod rows;
pub mod model;
pub mod state;
pub mod effect;
pub mod action;
pub mod engine;
pub mod error;
pub mod util;
pub mod flow;
pub mod effects;
pub mod reducer;
pub mod input;
pub mod laws;
pub mod lockstep;
pub mod layout;

pub use action::Action;
pub use effect::Effect;
pub use modes::{Dialog, FilterKind, FocusPanel, Mode, View};
pub use rows::{FileEntry, FilePickerState, TorrentRow};
pub use state::App;
