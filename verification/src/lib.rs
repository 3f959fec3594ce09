//! Dotfile tracking: path projections, the manifest, comparison of
//! filesystem snapshots, and the decisions of the lifecycle operations.

pub mod commands;
pub mod error;
pub mod models;
pub mod table;
pub mod text;
pub mod tui;
pub mod utils;
