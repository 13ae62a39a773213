//! Core logic of a terminal client for a wargame platform: filter options,
//! paginated challenge lists, the challenge model, session cookies, virtual
//! machine port data, text input editing and the key-driven UI state machine.

pub mod auth;
pub mod challenge;
pub mod config;
pub mod events;
pub mod extract;
pub mod fs_tree;
pub mod input;
pub mod options;
pub mod request;
pub mod text;
pub mod ui;
pub mod vm_info;
pub mod widgets;
