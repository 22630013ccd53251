//! `E1xx`: the content of the document.
use vstd::prelude::*;

use crate::changelog::parsed::{
    ChangesView, InvalidSpan, ParsedChangelog, ParsedChanges, ParsedRelease, ParsedUnreleased,
};
use crate::linter::check::{
    copied, gathered, holds_text, string_views, Check, Gathered, Visit,
};
use crate::rule::Rule;
use crate::span::Span;
use crate::text::str_eq;

verus! {

/// What is found at one visit: the span of a title that is more than plain
/// text.
pub open spec fn invalid_title_at(visit: Visit) -> Seq<Option<Span>> {
    match visit {
        Visit::Invalid(InvalidSpan::InvalidTitle(span)) => seq![Some(span)],
        _ => Seq::empty(),
    }
}

/// Passes on each title that is more than plain text.
pub struct InvalidTitle {
    found: Gathered,
}

impl Default for InvalidTitle {
    fn default() -> (check: InvalidTitle)
        ensures
            check.wf(),
            check.seen() == Seq::<Visit>::empty(),
    {
        InvalidTitle { found: Gathered::new() }
    }
}

impl InvalidTitle {
    /// What the check finds at one visit.
    pub open spec fn at() -> spec_fn(Visit) -> Seq<Option<Span>> {
        |visit: Visit| invalid_title_at(visit)
    }
}

impl Check for InvalidTitle {
    closed spec fn wf(&self) -> bool {
        self.found.follows(Self::at())
    }

    closed spec fn seen(&self) -> Seq<Visit> {
        self.found.visits()
    }

    open spec fn spec_rule() -> Rule {
        Rule::InvalidTitle
    }

    /// The span of each title that is more than plain text, in the order in
    /// which they were shown.
    open spec fn findings(visits: Seq<Visit>) -> Seq<Option<Span>> {
        gathered(visits, Self::at())
    }

    fn rule(&self) -> (rule: Rule) {
        Rule::InvalidTitle
    }

    fn visit_changelog(&mut self, changelog: &ParsedChangelog) {
        self.found.pass(Ghost(Visit::Changelog(changelog@)), Ghost(Self::at()));
    }

    fn visit_unreleased(&mut self, unreleased: &ParsedUnreleased) {
        self.found.pass(Ghost(Visit::Unreleased(unreleased@)), Ghost(Self::at()));
    }

    fn visit_release(&mut self, release: &ParsedRelease) {
        self.found.pass(Ghost(Visit::Release(release@)), Ghost(Self::at()));
    }

    fn visit_changes(&mut self, changes: &ParsedChanges) {
        self.found.pass(Ghost(Visit::Changes(changes@)), Ghost(Self::at()));
    }

    fn visit_invalid_span(&mut self, span: &InvalidSpan) {
        match span {
            InvalidSpan::InvalidTitle(found) => {
                self.found.note(Ghost(Visit::Invalid(*span)), Ghost(Self::at()), Some(*found));
            },
            _ => {
                self.found.pass(Ghost(Visit::Invalid(*span)), Ghost(Self::at()));
            },
        }
    }

    fn finalize(&mut self) {
        self.found.pass(Ghost(Visit::Finalize), Ghost(Self::at()));
    }

    fn locations(&self) -> (found: Vec<Option<Span>>) {
        self.found.locations()
    }
}

/// What is found at one visit: the span of a second-level heading that starts
/// no section.
pub open spec fn invalid_section_heading_at(visit: Visit) -> Seq<Option<Span>> {
    match visit {
        Visit::Invalid(InvalidSpan::InvalidSectionHeading(span)) => seq![Some(span)],
        _ => Seq::empty(),
    }
}

/// Passes on each second-level heading that starts no section.
pub struct InvalidSectionHeading {
    found: Gathered,
}

impl Default for InvalidSectionHeading {
    fn default() -> (check: InvalidSectionHeading)
        ensures
            check.wf(),
            check.seen() == Seq::<Visit>::empty(),
    {
        InvalidSectionHeading { found: Gathered::new() }
    }
}

impl InvalidSectionHeading {
    /// What the check finds at one visit.
    pub open spec fn at() -> spec_fn(Visit) -> Seq<Option<Span>> {
        |visit: Visit| invalid_section_heading_at(visit)
    }
}

impl Check for InvalidSectionHeading {
    closed spec fn wf(&self) -> bool {
        self.found.follows(Self::at())
    }

    closed spec fn seen(&self) -> Seq<Visit> {
        self.found.visits()
    }

    open spec fn spec_rule() -> Rule {
        Rule::InvalidSectionHeading
    }

    /// The span of each second-level heading that starts no section, in the
    /// order in which they were shown.
    open spec fn findings(visits: Seq<Visit>) -> Seq<Option<Span>> {
        gathered(visits, Self::at())
    }

    fn rule(&self) -> (rule: Rule) {
        Rule::InvalidSectionHeading
    }

    fn visit_changelog(&mut self, changelog: &ParsedChangelog) {
        self.found.pass(Ghost(Visit::Changelog(changelog@)), Ghost(Self::at()));
    }

    fn visit_unreleased(&mut self, unreleased: &ParsedUnreleased) {
        self.found.pass(Ghost(Visit::Unreleased(unreleased@)), Ghost(Self::at()));
    }

    fn visit_release(&mut self, release: &ParsedRelease) {
        self.found.pass(Ghost(Visit::Release(release@)), Ghost(Self::at()));
    }

    fn visit_changes(&mut self, changes: &ParsedChanges) {
        self.found.pass(Ghost(Visit::Changes(changes@)), Ghost(Self::at()));
    }

    fn visit_invalid_span(&mut self, span: &InvalidSpan) {
        match span {
            InvalidSpan::InvalidSectionHeading(found) => {
                self.found.note(Ghost(Visit::Invalid(*span)), Ghost(Self::at()), Some(*found));
            },
            _ => {
                self.found.pass(Ghost(Visit::Invalid(*span)), Ghost(Self::at()));
            },
        }
    }

    fn finalize(&mut self) {
        self.found.pass(Ghost(Visit::Finalize), Ghost(Self::at()));
    }

    fn locations(&self) -> (found: Vec<Option<Span>>) {
        self.found.locations()
    }
}

/// What is found at one visit: the heading of a release without groups of
/// changes, or of a group of changes without items.
pub open spec fn empty_section_at(visit: Visit) -> Seq<Option<Span>> {
    match visit {
        Visit::Release(release) => if release.changes.len() == 0 {
            seq![Some(release.heading_span)]
        } else {
            Seq::empty()
        },
        Visit::Changes(changes) => if changes.items.len() == 0 {
            seq![Some(changes.heading_span)]
        } else {
            Seq::empty()
        },
        _ => Seq::empty(),
    }
}

/// Checks that no release and no group of changes is empty.
///
/// An unreleased section without changes is in order.
pub struct EmptySection {
    found: Gathered,
}

impl Default for EmptySection {
    fn default() -> (check: EmptySection)
        ensures
            check.wf(),
            check.seen() == Seq::<Visit>::empty(),
    {
        EmptySection { found: Gathered::new() }
    }
}

impl EmptySection {
    /// What the check finds at one visit.
    pub open spec fn at() -> spec_fn(Visit) -> Seq<Option<Span>> {
        |visit: Visit| empty_section_at(visit)
    }
}

impl Check for EmptySection {
    closed spec fn wf(&self) -> bool {
        self.found.follows(Self::at())
    }

    closed spec fn seen(&self) -> Seq<Visit> {
        self.found.visits()
    }

    open spec fn spec_rule() -> Rule {
        Rule::EmptySection
    }

    /// The heading of each release without groups of changes and of each group
    /// of changes without items, in the order in which they were shown.
    open spec fn findings(visits: Seq<Visit>) -> Seq<Option<Span>> {
        gathered(visits, Self::at())
    }

    fn rule(&self) -> (rule: Rule) {
        Rule::EmptySection
    }

    fn visit_changelog(&mut self, changelog: &ParsedChangelog) {
        self.found.pass(Ghost(Visit::Changelog(changelog@)), Ghost(Self::at()));
    }

    fn visit_unreleased(&mut self, unreleased: &ParsedUnreleased) {
        self.found.pass(Ghost(Visit::Unreleased(unreleased@)), Ghost(Self::at()));
    }

    fn visit_release(&mut self, release: &ParsedRelease) {
        if release.changes.len() == 0 {
            self.found.note(
                Ghost(Visit::Release(release@)),
                Ghost(Self::at()),
                Some(release.heading_span),
            );
        } else {
            self.found.pass(Ghost(Visit::Release(release@)), Ghost(Self::at()));
        }
    }

    fn visit_changes(&mut self, changes: &ParsedChanges) {
        if changes.items.len() == 0 {
            self.found.note(
                Ghost(Visit::Changes(changes@)),
                Ghost(Self::at()),
                Some(changes.heading_span),
            );
        } else {
            self.found.pass(Ghost(Visit::Changes(changes@)), Ghost(Self::at()));
        }
    }

    fn visit_invalid_span(&mut self, span: &InvalidSpan) {
        self.found.pass(Ghost(Visit::Invalid(*span)), Ghost(Self::at()));
    }

    fn finalize(&mut self) {
        self.found.pass(Ghost(Visit::Finalize), Ghost(Self::at()));
    }

    fn locations(&self) -> (found: Vec<Option<Span>>) {
        self.found.locations()
    }
}

/// Whether a text names one of the six types of change. Case matters.
pub open spec fn is_change_type(kind: Seq<char>) -> bool {
    ||| kind == "Added"@
    ||| kind == "Changed"@
    ||| kind == "Deprecated"@
    ||| kind == "Fixed"@
    ||| kind == "Removed"@
    ||| kind == "Security"@
}

/// Whether a text names one of the six types of change.
pub fn is_known_change_type(kind: &str) -> (known: bool)
    ensures
        known == is_change_type(kind@),
{
    str_eq(kind, "Added") || str_eq(kind, "Changed") || str_eq(kind, "Deprecated") || str_eq(
        kind,
        "Fixed",
    ) || str_eq(kind, "Removed") || str_eq(kind, "Security")
}

/// What is found at one visit: the type of a group of changes, where it is none
/// of the six.
pub open spec fn unknown_change_type_at(visit: Visit) -> Seq<Option<Span>> {
    match visit {
        Visit::Changes(changes) => if is_change_type(changes.kind.value) {
            Seq::empty()
        } else {
            seq![Some(changes.kind.span)]
        },
        _ => Seq::empty(),
    }
}

/// Checks that each group of changes names one of the six types of change.
pub struct UnknownChangeType {
    found: Gathered,
}

impl Default for UnknownChangeType {
    fn default() -> (check: UnknownChangeType)
        ensures
            check.wf(),
            check.seen() == Seq::<Visit>::empty(),
    {
        UnknownChangeType { found: Gathered::new() }
    }
}

impl UnknownChangeType {
    /// What the check finds at one visit.
    pub open spec fn at() -> spec_fn(Visit) -> Seq<Option<Span>> {
        |visit: Visit| unknown_change_type_at(visit)
    }
}

impl Check for UnknownChangeType {
    closed spec fn wf(&self) -> bool {
        self.found.follows(Self::at())
    }

    closed spec fn seen(&self) -> Seq<Visit> {
        self.found.visits()
    }

    open spec fn spec_rule() -> Rule {
        Rule::UnknownChangeType
    }

    /// The span of the type of each group of changes that names none of the six
    /// types, in the order in which the groups were shown.
    open spec fn findings(visits: Seq<Visit>) -> Seq<Option<Span>> {
        gathered(visits, Self::at())
    }

    fn rule(&self) -> (rule: Rule) {
        Rule::UnknownChangeType
    }

    fn visit_changelog(&mut self, changelog: &ParsedChangelog) {
        self.found.pass(Ghost(Visit::Changelog(changelog@)), Ghost(Self::at()));
    }

    fn visit_unreleased(&mut self, unreleased: &ParsedUnreleased) {
        self.found.pass(Ghost(Visit::Unreleased(unreleased@)), Ghost(Self::at()));
    }

    fn visit_release(&mut self, release: &ParsedRelease) {
        self.found.pass(Ghost(Visit::Release(release@)), Ghost(Self::at()));
    }

    fn visit_changes(&mut self, changes: &ParsedChanges) {
        if !is_known_change_type(changes.kind.value) {
            self.found.note(
                Ghost(Visit::Changes(changes@)),
                Ghost(Self::at()),
                Some(changes.kind.span),
            );
        } else {
            self.found.pass(Ghost(Visit::Changes(changes@)), Ghost(Self::at()));
        }
    }

    fn visit_invalid_span(&mut self, span: &InvalidSpan) {
        self.found.pass(Ghost(Visit::Invalid(*span)), Ghost(Self::at()));
    }

    fn finalize(&mut self) {
        self.found.pass(Ghost(Visit::Finalize), Ghost(Self::at()));
    }

    fn locations(&self) -> (found: Vec<Option<Span>>) {
        self.found.locations()
    }
}

/// The types of the groups of changes that were shown since a section was
/// shown last.
pub open spec fn kinds_in_scope(visits: Seq<Visit>) -> Seq<Seq<char>>
    decreases visits.len(),
{
    if visits.len() == 0 {
        Seq::empty()
    } else {
        let before = kinds_in_scope(visits.drop_last());
        match visits.last() {
            Visit::Unreleased(_) => Seq::empty(),
            Visit::Release(_) => Seq::empty(),
            Visit::Changes(changes) => before.push(changes.kind.value),
            _ => before,
        }
    }
}

/// The span of the type of each group of changes whose type an earlier group
/// of the same section has, in the order in which the groups were shown.
pub open spec fn duplicate_change_types(visits: Seq<Visit>) -> Seq<Option<Span>>
    decreases visits.len(),
{
    if visits.len() == 0 {
        Seq::empty()
    } else {
        let before = duplicate_change_types(visits.drop_last());
        match visits.last() {
            Visit::Changes(changes) => if kinds_in_scope(visits.drop_last()).contains(
                changes.kind.value,
            ) {
                before.push(Some(changes.kind.span))
            } else {
                before
            },
            _ => before,
        }
    }
}

/// The types of `groups`.
pub open spec fn kinds_of(groups: Seq<ChangesView>) -> Seq<Seq<char>> {
    groups.map_values(|group: ChangesView| group.kind.value)
}

/// The span of the type of each of the first `count` of `groups` whose type
/// an earlier group has, in order.
pub open spec fn repeated_kinds(groups: Seq<ChangesView>, count: int) -> Seq<Option<Span>>
    decreases count,
{
    if count <= 0 {
        Seq::empty()
    } else {
        let before = repeated_kinds(groups, count - 1);
        let group = groups[count - 1];
        if kinds_of(groups.take(count - 1)).contains(group.kind.value) {
            before.push(Some(group.kind.span))
        } else {
            before
        }
    }
}

/// Checks that no two groups of changes of one section have the same type.
///
/// Types are compared character for character. What one section holds has no
/// bearing on the next.
pub struct DuplicateChangeType {
    spans: Vec<Option<Span>>,
    seen: Vec<String>,
    visits: Ghost<Seq<Visit>>,
}

impl Default for DuplicateChangeType {
    fn default() -> (check: DuplicateChangeType)
        ensures
            check.wf(),
            check.seen() == Seq::<Visit>::empty(),
    {
        let check = DuplicateChangeType {
            spans: Vec::new(),
            seen: Vec::new(),
            visits: Ghost(Seq::empty()),
        };
        assert(string_views(check.seen@) =~= Seq::empty());
        check
    }
}

impl Check for DuplicateChangeType {
    closed spec fn wf(&self) -> bool {
        &&& self.spans@ == duplicate_change_types(self.visits@)
        &&& string_views(self.seen@) == kinds_in_scope(self.visits@)
    }

    closed spec fn seen(&self) -> Seq<Visit> {
        self.visits@
    }

    open spec fn spec_rule() -> Rule {
        Rule::DuplicateChangeType
    }

    /// The span of the type of each group of changes whose type an earlier
    /// group of the same section has.
    open spec fn findings(visits: Seq<Visit>) -> Seq<Option<Span>> {
        duplicate_change_types(visits)
    }

    fn rule(&self) -> (rule: Rule) {
        Rule::DuplicateChangeType
    }

    fn visit_changelog(&mut self, changelog: &ParsedChangelog) {
        proof {
            assert(self.visits@.push(Visit::Changelog(changelog@)).drop_last() =~= self.visits@);
        }
        self.visits = Ghost(self.visits@.push(Visit::Changelog(changelog@)));
    }

    fn visit_unreleased(&mut self, unreleased: &ParsedUnreleased) {
        proof {
            assert(self.visits@.push(Visit::Unreleased(unreleased@)).drop_last() =~= self.visits@);
        }
        self.seen = Vec::new();
        assert(string_views(self.seen@) =~= Seq::empty());
        self.visits = Ghost(self.visits@.push(Visit::Unreleased(unreleased@)));
    }

    fn visit_release(&mut self, release: &ParsedRelease) {
        proof {
            assert(self.visits@.push(Visit::Release(release@)).drop_last() =~= self.visits@);
        }
        self.seen = Vec::new();
        assert(string_views(self.seen@) =~= Seq::empty());
        self.visits = Ghost(self.visits@.push(Visit::Release(release@)));
    }

    fn visit_changes(&mut self, changes: &ParsedChanges) {
        proof {
            assert(self.visits@.push(Visit::Changes(changes@)).drop_last() =~= self.visits@);
        }
        if holds_text(&self.seen, changes.kind.value) {
            self.spans.push(Some(changes.kind.span));
        }
        let ghost before = string_views(self.seen@);
        self.seen.push(changes.kind.value.to_owned());
        assert(string_views(self.seen@) =~= before.push(changes.kind.value@));
        self.visits = Ghost(self.visits@.push(Visit::Changes(changes@)));
    }

    fn visit_invalid_span(&mut self, span: &InvalidSpan) {
        proof {
            assert(self.visits@.push(Visit::Invalid(*span)).drop_last() =~= self.visits@);
        }
        self.visits = Ghost(self.visits@.push(Visit::Invalid(*span)));
    }

    fn finalize(&mut self) {
        proof {
            assert(self.visits@.push(Visit::Finalize).drop_last() =~= self.visits@);
        }
        self.visits = Ghost(self.visits@.push(Visit::Finalize));
    }

    fn locations(&self) -> (found: Vec<Option<Span>>) {
        copied(&self.spans)
    }
}

} // verus!
