//! A profile: the rules that a run of the linter checks.
use vstd::prelude::*;

use crate::rule::Rule;
use crate::ruleset::RuleSet;

verus! {

/// The rules that a run of the linter checks.
pub struct Profile {
    pub rules: RuleSet,
}

impl Profile {
    /// The profile that checks `rules`.
    pub fn new(rules: RuleSet) -> (profile: Profile)
        ensures
            profile.rules == rules,
    {
        Profile { rules }
    }

    /// Whether the profile checks `rule`.
    pub fn is_enabled(&self, rule: Rule) -> (enabled: bool)
        ensures
            enabled == self.rules@.contains(rule),
    {
        self.rules.is_enabled(rule)
    }
}

impl Default for Profile {
    /// The profile that checks all rules.
    fn default() -> (profile: Profile)
        ensures
            forall|rule: Rule| profile.rules@.contains(rule),
    {
        Profile { rules: RuleSet::all() }
    }
}

} // verus!
