//! `E3xx`: links.
use vstd::prelude::*;

use crate::changelog::parsed::{
    InvalidSpan, ParsedChangelog, ParsedChanges, ParsedRelease, ParsedUnreleased,
};
use crate::linter::check::{gathered, Check, Gathered, Visit};
use crate::rule::Rule;
use crate::span::Span;

verus! {

/// What is found at one visit: the span of a link to a label that the document
/// does not define.
pub open spec fn link_reference_does_not_exist_at(visit: Visit) -> Seq<Option<Span>> {
    match visit {
        Visit::Invalid(InvalidSpan::UndefinedLinkReference(span)) => seq![Some(span)],
        _ => Seq::empty(),
    }
}

/// Passes on each link to a label that the document does not define.
pub struct LinkReferenceDoesNotExist {
    found: Gathered,
}

impl Default for LinkReferenceDoesNotExist {
    fn default() -> (check: LinkReferenceDoesNotExist)
        ensures
            check.wf(),
            check.seen() == Seq::<Visit>::empty(),
    {
        LinkReferenceDoesNotExist { found: Gathered::new() }
    }
}

impl LinkReferenceDoesNotExist {
    /// What the check finds at one visit.
    pub open spec fn at() -> spec_fn(Visit) -> Seq<Option<Span>> {
        |visit: Visit| link_reference_does_not_exist_at(visit)
    }
}

impl Check for LinkReferenceDoesNotExist {
    closed spec fn wf(&self) -> bool {
        self.found.follows(Self::at())
    }

    closed spec fn seen(&self) -> Seq<Visit> {
        self.found.visits()
    }

    open spec fn spec_rule() -> Rule {
        Rule::UndefinedLinkReference
    }

    /// The span of each link to a label that the document does not define, in
    /// the order in which they were shown.
    open spec fn findings(visits: Seq<Visit>) -> Seq<Option<Span>> {
        gathered(visits, Self::at())
    }

    fn rule(&self) -> (rule: Rule) {
        Rule::UndefinedLinkReference
    }

    fn visit_changelog(&mut self, changelog: &ParsedChangelog) {
        self.found.pass(Ghost(Visit::Changelog(changelog@)), Ghost(Self::at()));
    }

    fn visit_unreleased(&mut self, unreleased: &ParsedUnreleased) {
        self.found.pass(Ghost(Visit::Unreleased(unreleased@)), Ghost(Self::at()));
    }

    fn visit_release(&mut self, release: &ParsedRelease) {
        self.found.pass(Ghost(Visit::Release(release@)), Ghost(Self::at()));
    }

    fn visit_changes(&mut self, changes: &ParsedChanges) {
        self.found.pass(Ghost(Visit::Changes(changes@)), Ghost(Self::at()));
    }

    fn visit_invalid_span(&mut self, span: &InvalidSpan) {
        match span {
            InvalidSpan::UndefinedLinkReference(found) => {
                self.found.note(Ghost(Visit::Invalid(*span)), Ghost(Self::at()), Some(*found));
            },
            _ => {
                self.found.pass(Ghost(Visit::Invalid(*span)), Ghost(Self::at()));
            },
        }
    }

    fn finalize(&mut self) {
        self.found.pass(Ghost(Visit::Finalize), Ghost(Self::at()));
    }

    fn locations(&self) -> (found: Vec<Option<Span>>) {
        self.found.locations()
    }
}

} // verus!
