//! The configuration of the linter.
use vstd::prelude::*;

use super::report::OutputFormat;
use crate::rule::Rule;
use crate::ruleset::RuleSet;

verus! {

/// A configuration. What a configuration leaves unset, another may set: see
/// [`Config::merge`].
#[derive(Debug, PartialEq)]
pub struct Config {
    pub lint: Lint,
}

/// The settings of the linter.
#[derive(Debug, PartialEq)]
pub struct Lint {
    /// The rules to check.
    pub select: Option<RuleSet>,
    /// The rules to leave out of those that `select` names.
    pub ignore: Option<RuleSet>,
    /// How to report diagnostics.
    pub output_format: Option<OutputFormat>,
}

/// The rules that are checked where nothing is configured: all.
pub fn default_select() -> (select: Option<RuleSet>)
    ensures
        select matches Some(rules) && forall|rule: Rule| rules@.contains(rule),
{
    Some(RuleSet::all())
}

impl Lint {
    /// Settings with nothing set.
    pub fn empty() -> (lint: Lint)
        ensures
            lint.select is None,
            lint.ignore is None,
            lint.output_format is None,
    {
        Lint { select: None, ignore: None, output_format: None }
    }

    /// The settings of `other`, and for what `other` leaves unset, these.
    pub fn merge(&self, other: &Lint) -> (merged: Lint)
        ensures
            merged.select == if other.select is Some {
                other.select
            } else {
                self.select
            },
            merged.ignore == if other.ignore is Some {
                other.ignore
            } else {
                self.ignore
            },
            merged.output_format == if other.output_format is Some {
                other.output_format
            } else {
                self.output_format
            },
    {
        Lint {
            select: match other.select {
                Some(select) => Some(select),
                None => self.select,
            },
            ignore: match other.ignore {
                Some(ignore) => Some(ignore),
                None => self.ignore,
            },
            output_format: match other.output_format {
                Some(format) => Some(format),
                None => self.output_format,
            },
        }
    }
}

impl Default for Lint {
    /// All rules selected, none ignored, and the short output format.
    fn default() -> (lint: Lint)
        ensures
            lint.select matches Some(rules) && forall|rule: Rule| rules@.contains(rule),
            lint.ignore matches Some(rules) && forall|rule: Rule| !rules@.contains(rule),
            lint.output_format == Some(OutputFormat::Short),
    {
        Lint {
            select: default_select(),
            ignore: Some(RuleSet::empty()),
            output_format: Some(OutputFormat::Short),
        }
    }
}

impl Config {
    /// The default configuration.
    pub fn new() -> (config: Config)
        ensures
            config.lint.select matches Some(rules) && forall|rule: Rule| rules@.contains(rule),
            config.lint.ignore matches Some(rules) && forall|rule: Rule| !rules@.contains(rule),
            config.lint.output_format == Some(OutputFormat::Short),
    {
        Config { lint: Lint::default() }
    }

    /// A configuration with nothing set.
    pub fn empty() -> (config: Config)
        ensures
            config.lint.select is None,
            config.lint.ignore is None,
            config.lint.output_format is None,
    {
        Config { lint: Lint::empty() }
    }

    /// The configuration `other`, and for what `other` leaves unset, this one.
    pub fn merge(&self, other: &Config) -> (merged: Config)
        ensures
            merged.lint.select == if other.lint.select is Some {
                other.lint.select
            } else {
                self.lint.select
            },
            merged.lint.ignore == if other.lint.ignore is Some {
                other.lint.ignore
            } else {
                self.lint.ignore
            },
            merged.lint.output_format == if other.lint.output_format is Some {
                other.lint.output_format
            } else {
                self.lint.output_format
            },
    {
        Config { lint: self.lint.merge(&other.lint) }
    }

    /// The rules that the configuration asks to check: those selected
    /// without those ignored. Where nothing is selected, there is no answer.
    pub fn rules(&self) -> (rules: Option<RuleSet>)
        ensures
            rules is Some <==> self.lint.select is Some,
            rules matches Some(set) ==> set@ == self.lint.select->0@.difference(
                match self.lint.ignore {
                    Some(ignore) => ignore@,
                    None => Set::empty(),
                },
            ),
    {
        match self.lint.select {
            Some(select) => match self.lint.ignore {
                Some(ignore) => Some(select.difference(&ignore)),
                None => {
                    assert(select@.difference(Set::empty()) =~= select@);
                    Some(select)
                },
            },
            None => None,
        }
    }
}

impl Default for Config {
    /// The default configuration.
    fn default() -> (config: Config)
        ensures
            config.lint.select matches Some(rules) && forall|rule: Rule| rules@.contains(rule),
            config.lint.ignore matches Some(rules) && forall|rule: Rule| !rules@.contains(rule),
            config.lint.output_format == Some(OutputFormat::Short),
    {
        Config { lint: Lint::default() }
    }
}

} // verus!
