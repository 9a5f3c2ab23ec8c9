//! Application state: what the inspector shows and how input changes it.

pub mod copilot;
pub mod crates;
pub mod filters;
pub mod input;
pub mod keys;
pub mod project;
pub mod state;

pub use state::App;


