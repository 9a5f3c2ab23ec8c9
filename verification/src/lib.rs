//! Vizier: dependency analysis, search and view-state logic for a Rust code inspector.

pub mod analyzer;
pub mod app;
pub mod config;
pub mod crates_io;
pub mod text;
pub mod ui;
