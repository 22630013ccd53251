//! A linter for changelogs in the Keep a Changelog format.
//!
//! The crate works in three steps: [`parse`] turns a changelog document into a
//! structured [`changelog::ParsedChangelog`] whose elements remember where in the
//! source they came from, [`Linter`] checks that structure against a set of
//! rules and reports [`Diagnostic`]s, and a [`span::Locator`] maps the byte
//! offsets of a diagnostic to lines and columns.
pub mod ast;
pub mod changelog;
pub mod cli;
pub mod diagnostic;
pub mod ir;
pub mod linter;
pub mod markdown;
pub mod parser;
pub mod prelude;
pub mod profile;
pub mod rule;
pub mod ruleset;
pub mod span;
pub mod text;

pub use diagnostic::Diagnostic;
pub use linter::Linter;
pub use parser::parse;
pub use rule::Rule;
pub use ruleset::RuleSet;
