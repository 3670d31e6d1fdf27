//! Structured metadata (title, season, episodes, year, release tags) from
//! the free-text names that label media releases.

pub mod matcher;
pub mod pattern;
pub mod registry;
pub mod text;
pub mod title;
pub mod error;
pub mod metadata;

pub use error::ErrorMatch;
pub use metadata::{set_is_subtitle, Metadata};
pub use registry::{Field, PatternRegistry};
pub use metadata::FieldMatches;
pub use pattern::Pattern;
