//! A terminal file browser's core: directory listings, a selection cursor
//! with wraparound, directory traversal, and the rename / copy edit-mode
//! state machine, all with verified contracts. Filesystem enumeration,
//! metadata retrieval and renaming go through small trusted wrappers around
//! `walkdir`, `rustix` and `unix_mode`.

pub mod app;
pub mod input;
pub mod item;
pub mod listing;
pub mod modes;
pub mod paths;
pub mod table;
pub mod view;
