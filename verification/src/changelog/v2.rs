//! Changelogs put together from a sequence of sections.
pub mod owned;
pub mod parsed;
