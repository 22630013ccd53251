//! Sets of linter rules.
use vstd::prelude::*;

use crate::rule::{Rule, RULE_COUNT};

verus! {

/// A set of linter rules.
///
/// Whether a rule is in the set is answered in constant time.
#[derive(Clone, Copy, Debug, PartialEq, Eq)]
pub struct RuleSet {
    /// For each rule, at its place among all rules, whether it is in the set.
    flags: [bool; 16],
}

impl View for RuleSet {
    type V = Set<Rule>;

    closed spec fn view(&self) -> Set<Rule> {
        Set::new(|rule: Rule| self.flags@[rule.spec_index()])
    }
}

impl RuleSet {
    /// The set without any rule.
    pub fn empty() -> (set: RuleSet)
        ensures
            forall|rule: Rule| !set@.contains(rule),
    {
        RuleSet { flags: [false; 16] }
    }

    /// The set of the rules in `rules`.
    pub fn new(rules: &[Rule]) -> (set: RuleSet)
        ensures
            forall|rule: Rule| set@.contains(rule) <==> rules@.contains(rule),
    {
        let mut set = RuleSet::empty();
        let mut index: usize = 0;
        while index < rules.len()
            invariant
                index <= rules@.len(),
                forall|rule: Rule|
                    set@.contains(rule) <==> rules@.take(index as int).contains(rule),
            decreases rules@.len() - index,
        {
            let ghost before = set@;
            set.insert(rules[index]);
            proof {
                let taken = rules@.take(index as int);
                assert(rules@.take(index + 1) =~= taken.push(rules@[index as int]));
                assert forall|rule: Rule| set@.contains(rule) <==> rules@.take(index + 1).contains(
                    rule,
                ) by {
                    if taken.contains(rule) {
                        let i = choose|i: int| 0 <= i < taken.len() && taken[i] == rule;
                        assert(taken.push(rules@[index as int])[i] == rule);
                    }
                    if rule == rules@[index as int] {
                        assert(taken.push(rules@[index as int])[index as int] == rule);
                    }
                }
            }
            index += 1;
        }
        assert(rules@.take(rules@.len() as int) =~= rules@);
        set
    }

    /// The set of all rules.
    pub fn all() -> (set: RuleSet)
        ensures
            forall|rule: Rule| set@.contains(rule),
    {
        RuleSet { flags: [true; 16] }
    }

    /// Puts `rule` into the set.
    pub fn insert(&mut self, rule: Rule)
        ensures
            final(self)@ == old(self)@.insert(rule),
    {
        self.flags[rule.index()] = true;
        proof {
            assert forall|other: Rule| self@.contains(other) <==> old(self)@.insert(rule).contains(
                other,
            ) by {
                if other != rule {
                    assert(other.spec_index() != rule.spec_index());
                }
            }
            assert(self@ =~= old(self)@.insert(rule));
        }
    }

    /// Takes `rule` out of the set.
    pub fn remove(&mut self, rule: Rule)
        ensures
            final(self)@ == old(self)@.remove(rule),
    {
        self.flags[rule.index()] = false;
        proof {
            assert forall|other: Rule| self@.contains(other) <==> old(self)@.remove(rule).contains(
                other,
            ) by {
                if other != rule {
                    assert(other.spec_index() != rule.spec_index());
                }
            }
            assert(self@ =~= old(self)@.remove(rule));
        }
    }

    /// Whether `rule` is in the set.
    pub fn is_enabled(&self, rule: Rule) -> (enabled: bool)
        ensures
            enabled == self@.contains(rule),
    {
        self.flags[rule.index()]
    }

    /// The rules of this set that are not in `other`.
    pub fn difference(&self, other: &RuleSet) -> (set: RuleSet)
        ensures
            set@ == self@.difference(other@),
    {
        let mut flags = [false; 16];
        let mut index: usize = 0;
        while index < RULE_COUNT
            invariant
                index <= RULE_COUNT,
                forall|i: int|
                    0 <= i < index ==> flags@[i] == (self.flags@[i] && !other.flags@[i]),
            decreases RULE_COUNT - index,
        {
            flags[index] = self.flags[index] && !other.flags[index];
            index += 1;
        }
        let set = RuleSet { flags };
        assert(set@ =~= self@.difference(other@));
        set
    }
}

impl Default for RuleSet {
    /// The set of all rules.
    fn default() -> (set: RuleSet)
        ensures
            forall|rule: Rule| set@.contains(rule),
    {
        RuleSet::all()
    }
}

impl<const N: usize> From<[Rule; N]> for RuleSet {
    /// The set of the rules in `rules`.
    fn from(rules: [Rule; N]) -> (set: RuleSet)
        ensures
            forall|rule: Rule| set@.contains(rule) <==> rules@.contains(rule),
    {
        RuleSet::new(rules.as_slice())
    }
}

impl<const N: usize> vstd::std_specs::convert::FromSpecImpl<[Rule; N]> for RuleSet {
    /// Nothing is said here of the set as a value: see the contract of
    /// `from` for the rules that it holds.
    open spec fn obeys_from_spec() -> bool {
        false
    }

    open spec fn from_spec(rules: [Rule; N]) -> RuleSet {
        arbitrary()
    }
}

} // verus!
