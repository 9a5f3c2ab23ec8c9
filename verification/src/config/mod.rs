//! Application configuration.

pub mod settings;

pub use settings::Settings;
