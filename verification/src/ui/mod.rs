//! View state and the logic behind the user interface.

pub mod app;
pub mod dependency_view;
pub mod lines;
pub mod markdown;
pub mod search;
pub mod tokens;

pub use app::{Focus, Tab, VizierUi};
pub use search::{filter_candidates, CandidateKind, CompletionCandidate, SearchBar, SearchCompletion};
