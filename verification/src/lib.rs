//! Application metadata for a command-line program: a semantic-version value
//! type and an immutable metadata record (name, author, optional description,
//! version) with fluent updates and an exact textual rendering.

pub mod metadata;
pub mod version;

pub use metadata::AppMetadata;
pub use version::{BuildMetadata, Prerelease, Version};
