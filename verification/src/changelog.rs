//! Changelogs in the Keep a Changelog format.
pub mod owned;
pub mod parsed;
pub mod traits;
pub mod v2;

pub use owned::OwnedChangelog;
pub use parsed::ParsedChangelog;
pub use traits::{Changelog, Changes, Release, Unreleased};
