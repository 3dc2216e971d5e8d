//! Lookup and rendering of command cheat-sheet pages.

pub mod cli;
pub mod error;
pub mod plain;
pub mod render;
pub mod shape;
pub mod store;
pub mod style;
pub mod text;
pub mod update;
