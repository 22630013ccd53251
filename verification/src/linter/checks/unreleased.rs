//! `E0xx`: the unreleased section.
use vstd::prelude::*;

use crate::changelog::parsed::{
    InvalidSpan, ParsedChangelog, ParsedChanges, ParsedRelease, ParsedUnreleased,
};
use crate::linter::check::{
    any_visit, gathered, lemma_any_visit_push, Check, Gathered, Visit,
};
use crate::rule::Rule;
use crate::span::Span;

verus! {

/// Whether a visit shows an unreleased section.
pub open spec fn shows_unreleased(visit: Visit) -> bool {
    visit is Unreleased
}

/// Checks that the changelog has an unreleased section.
pub struct MissingUnreleased {
    found: bool,
    visits: Ghost<Seq<Visit>>,
}

impl Default for MissingUnreleased {
    fn default() -> (check: MissingUnreleased)
        ensures
            check.wf(),
            check.seen() == Seq::<Visit>::empty(),
    {
        MissingUnreleased { found: false, visits: Ghost(Seq::empty()) }
    }
}

impl MissingUnreleased {
    /// What the check looks for in a visit.
    pub open spec fn is() -> spec_fn(Visit) -> bool {
        |visit: Visit| shows_unreleased(visit)
    }
}

impl Check for MissingUnreleased {
    closed spec fn wf(&self) -> bool {
        self.found == any_visit(self.visits@, Self::is())
    }

    closed spec fn seen(&self) -> Seq<Visit> {
        self.visits@
    }

    open spec fn spec_rule() -> Rule {
        Rule::MissingUnreleased
    }

    /// One violation without a location, unless an unreleased section was
    /// shown.
    open spec fn findings(visits: Seq<Visit>) -> Seq<Option<Span>> {
        if any_visit(visits, Self::is()) {
            Seq::empty()
        } else {
            seq![None]
        }
    }

    fn rule(&self) -> (rule: Rule) {
        Rule::MissingUnreleased
    }

    fn visit_changelog(&mut self, changelog: &ParsedChangelog) {
        proof {
            lemma_any_visit_push(self.visits@, Visit::Changelog(changelog@), Self::is());
        }
        self.visits = Ghost(self.visits@.push(Visit::Changelog(changelog@)));
    }

    fn visit_unreleased(&mut self, unreleased: &ParsedUnreleased) {
        proof {
            lemma_any_visit_push(self.visits@, Visit::Unreleased(unreleased@), Self::is());
        }
        self.found = true;
        self.visits = Ghost(self.visits@.push(Visit::Unreleased(unreleased@)));
    }

    fn visit_release(&mut self, release: &ParsedRelease) {
        proof {
            lemma_any_visit_push(self.visits@, Visit::Release(release@), Self::is());
        }
        self.visits = Ghost(self.visits@.push(Visit::Release(release@)));
    }

    fn visit_changes(&mut self, changes: &ParsedChanges) {
        proof {
            lemma_any_visit_push(self.visits@, Visit::Changes(changes@), Self::is());
        }
        self.visits = Ghost(self.visits@.push(Visit::Changes(changes@)));
    }

    fn visit_invalid_span(&mut self, span: &InvalidSpan) {
        proof {
            lemma_any_visit_push(self.visits@, Visit::Invalid(*span), Self::is());
        }
        self.visits = Ghost(self.visits@.push(Visit::Invalid(*span)));
    }

    fn finalize(&mut self) {
        proof {
            lemma_any_visit_push(self.visits@, Visit::Finalize, Self::is());
        }
        self.visits = Ghost(self.visits@.push(Visit::Finalize));
    }

    fn locations(&self) -> (found: Vec<Option<Span>>) {
        let mut found: Vec<Option<Span>> = Vec::new();
        if !self.found {
            found.push(None);
        }
        assert(found@ =~= Self::findings(self.visits@));
        found
    }
}

/// What is found at one visit: the span of an unreleased section behind the
/// first one.
pub open spec fn duplicate_unreleased_at(visit: Visit) -> Seq<Option<Span>> {
    match visit {
        Visit::Invalid(InvalidSpan::DuplicateUnreleased(span)) => seq![Some(span)],
        _ => Seq::empty(),
    }
}

/// Passes on each unreleased section behind the first one.
pub struct DuplicateUnreleased {
    found: Gathered,
}

impl Default for DuplicateUnreleased {
    fn default() -> (check: DuplicateUnreleased)
        ensures
            check.wf(),
            check.seen() == Seq::<Visit>::empty(),
    {
        DuplicateUnreleased { found: Gathered::new() }
    }
}

impl DuplicateUnreleased {
    /// What the check finds at one visit.
    pub open spec fn at() -> spec_fn(Visit) -> Seq<Option<Span>> {
        |visit: Visit| duplicate_unreleased_at(visit)
    }
}

impl Check for DuplicateUnreleased {
    closed spec fn wf(&self) -> bool {
        self.found.follows(Self::at())
    }

    closed spec fn seen(&self) -> Seq<Visit> {
        self.found.visits()
    }

    open spec fn spec_rule() -> Rule {
        Rule::DuplicateUnreleased
    }

    /// The span of each unreleased section behind the first one, in the order
    /// in which they were shown.
    open spec fn findings(visits: Seq<Visit>) -> Seq<Option<Span>> {
        gathered(visits, Self::at())
    }

    fn rule(&self) -> (rule: Rule) {
        Rule::DuplicateUnreleased
    }

    fn visit_changelog(&mut self, changelog: &ParsedChangelog) {
        self.found.pass(Ghost(Visit::Changelog(changelog@)), Ghost(Self::at()));
    }

    fn visit_unreleased(&mut self, unreleased: &ParsedUnreleased) {
        self.found.pass(Ghost(Visit::Unreleased(unreleased@)), Ghost(Self::at()));
    }

    fn visit_release(&mut self, release: &ParsedRelease) {
        self.found.pass(Ghost(Visit::Release(release@)), Ghost(Self::at()));
    }

    fn visit_changes(&mut self, changes: &ParsedChanges) {
        self.found.pass(Ghost(Visit::Changes(changes@)), Ghost(Self::at()));
    }

    fn visit_invalid_span(&mut self, span: &InvalidSpan) {
        match span {
            InvalidSpan::DuplicateUnreleased(found) => {
                self.found.note(Ghost(Visit::Invalid(*span)), Ghost(Self::at()), Some(*found));
            },
            _ => {
                self.found.pass(Ghost(Visit::Invalid(*span)), Ghost(Self::at()));
            },
        }
    }

    fn finalize(&mut self) {
        self.found.pass(Ghost(Visit::Finalize), Ghost(Self::at()));
    }

    fn locations(&self) -> (found: Vec<Option<Span>>) {
        self.found.locations()
    }
}

} // verus!
