//! Core of a clipboard watcher: change detection by content fingerprints,
//! file naming, the note formats, the retry discipline and the monitor's
//! state machine. Everything that touches the clipboard, the file system or
//! another process is left to the caller; this crate decides and formats.

pub mod clock;
pub mod config;
pub mod hasher;
pub mod monitor;
pub mod naming;
pub mod notes;
pub mod paths;
pub mod persist;
pub mod retry;
pub mod saving;
pub mod snapshot;
pub mod text;
