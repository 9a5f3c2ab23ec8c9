//! Dependency analysis of a cargo workspace, and the analyzed-item model.

pub mod dependency;
pub mod graph;
pub mod item;

pub use dependency::{CrateInfo, DependencyAnalyzer, DependencyInfo, DependencyKind};
pub use item::{AnalyzedItem, InstalledCrate, ItemKind, Visibility};
