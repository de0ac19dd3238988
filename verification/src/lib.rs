//! An interactive picker's core: a catalog of grouped items, live substring
//! filtering, a selection cursor, and the launch description that a confirmed
//! selection resolves to; and the rules by which catalog generators compose.

pub mod bb_prs;
pub mod bookmarks;
pub mod domain;
pub mod filter;
pub mod git_repo;
pub mod launcher;
pub mod model;
pub mod paths;
pub mod plugin;
pub mod search;
pub mod serialization;
pub mod state;
pub mod stateful;
pub mod text;
