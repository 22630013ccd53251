//! The traits that give access to the parts of a changelog.
pub use crate::changelog::traits::{Changelog, Changes, Release, Unreleased};
