//! A terminal file browser's model: directory listings, fuzzy file lookup,
//! bookmarks, staged selections, and the session state machine that
//! arbitrates key events among them.

pub mod text;
pub mod sizes;
pub mod listing;
pub mod pane;
pub mod fuzzy;
pub mod paths;
pub mod bookmarks;
pub mod selection;
pub mod session;
pub mod config;
