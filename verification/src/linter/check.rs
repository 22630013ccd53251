//! What a check is.
use vstd::prelude::*;

use crate::changelog::parsed::{
    ChangelogView, ChangesView, InvalidSpan, ParsedChangelog, ParsedChanges, ParsedRelease,
    ParsedUnreleased, ReleaseView, UnreleasedView,
};
use crate::rule::Rule;
use crate::span::Span;
use crate::text::str_eq;

verus! {

/// One step of the walk over a changelog: what a check is shown.
#[verifier::ext_equal]
pub enum Visit {
    /// The changelog as a whole.
    Changelog(ChangelogView),
    /// The unreleased section.
    Unreleased(UnreleasedView),
    /// A release.
    Release(ReleaseView),
    /// A group of changes of the section that was shown last.
    Changes(ChangesView),
    /// A place where the document does not fit the format.
    Invalid(InvalidSpan),
    /// The end of the walk.
    Finalize,
}

/// A check: it is shown the parts of a changelog one after the other, and
/// tells where the changelog breaks its rule.
///
/// What a check finds depends on nothing but what it was shown, and in which
/// order.
pub trait Check {
    /// Whether the check is in order: what it holds is what it was shown.
    spec fn wf(&self) -> bool;

    /// What the check was shown so far, in order.
    spec fn seen(&self) -> Seq<Visit>;

    /// The rule of the check.
    spec fn spec_rule() -> Rule;

    /// Where a changelog breaks the rule, as far as `visits` shows: the location
    /// of each violation, in the order in which the check finds them.
    spec fn findings(visits: Seq<Visit>) -> Seq<Option<Span>>;

    /// The rule of the check.
    fn rule(&self) -> (rule: Rule)
        ensures
            rule == Self::spec_rule(),
    ;

    /// Shows the check the changelog as a whole.
    fn visit_changelog(&mut self, changelog: &ParsedChangelog)
        requires
            old(self).wf(),
        ensures
            final(self).wf(),
            final(self).seen() == old(self).seen().push(Visit::Changelog(changelog@)),
    ;

    /// Shows the check the unreleased section.
    fn visit_unreleased(&mut self, unreleased: &ParsedUnreleased)
        requires
            old(self).wf(),
        ensures
            final(self).wf(),
            final(self).seen() == old(self).seen().push(Visit::Unreleased(unreleased@)),
    ;

    /// Shows the check a release.
    fn visit_release(&mut self, release: &ParsedRelease)
        requires
            old(self).wf(),
        ensures
            final(self).wf(),
            final(self).seen() == old(self).seen().push(Visit::Release(release@)),
    ;

    /// Shows the check a group of changes.
    fn visit_changes(&mut self, changes: &ParsedChanges)
        requires
            old(self).wf(),
        ensures
            final(self).wf(),
            final(self).seen() == old(self).seen().push(Visit::Changes(changes@)),
    ;

    /// Shows the check a place where the document does not fit the format.
    fn visit_invalid_span(&mut self, span: &InvalidSpan)
        requires
            old(self).wf(),
        ensures
            final(self).wf(),
            final(self).seen() == old(self).seen().push(Visit::Invalid(*span)),
    ;

    /// Tells the check that the walk is over.
    fn finalize(&mut self)
        requires
            old(self).wf(),
        ensures
            final(self).wf(),
            final(self).seen() == old(self).seen().push(Visit::Finalize),
    ;

    /// The location of each violation that the check found.
    fn locations(&self) -> (found: Vec<Option<Span>>)
        requires
            self.wf(),
        ensures
            found@ == Self::findings(self.seen()),
    ;
}

/// What a check finds that looks at each visit by itself: what `at` finds at
/// each of `visits`, in order.
pub open spec fn gathered(visits: Seq<Visit>, at: spec_fn(Visit) -> Seq<Option<Span>>) -> Seq<
    Option<Span>,
>
    decreases visits.len(),
{
    if visits.len() == 0 {
        Seq::empty()
    } else {
        gathered(visits.drop_last(), at) + at(visits.last())
    }
}

/// What a check keeps that looks at each visit by itself: the locations that
/// it found, and what it was shown.
pub struct Gathered {
    spans: Vec<Option<Span>>,
    visits: Ghost<Seq<Visit>>,
}

impl Gathered {
    /// The locations that were found, in order.
    pub closed spec fn spans(&self) -> Seq<Option<Span>> {
        self.spans@
    }

    /// The visits that were noted, in order.
    pub closed spec fn visits(&self) -> Seq<Visit> {
        self.visits@
    }

    /// Whether the locations are what `at` finds at the visits.
    pub open spec fn follows(&self, at: spec_fn(Visit) -> Seq<Option<Span>>) -> bool {
        self.spans() == gathered(self.visits(), at)
    }

    /// Nothing found, nothing shown.
    pub fn new() -> (kept: Gathered)
        ensures
            kept.visits() == Seq::<Visit>::empty(),
            forall|at: spec_fn(Visit) -> Seq<Option<Span>>| kept.follows(at),
    {
        Gathered { spans: Vec::new(), visits: Ghost(Seq::empty()) }
    }

    /// Notes a visit at which nothing is found.
    pub fn pass(
        &mut self,
        Ghost(visit): Ghost<Visit>,
        Ghost(at): Ghost<spec_fn(Visit) -> Seq<Option<Span>>>,
    )
        requires
            old(self).follows(at),
            at(visit).len() == 0,
        ensures
            final(self).follows(at),
            final(self).visits() == old(self).visits().push(visit),
    {
        proof {
            assert(self.visits@.push(visit).drop_last() =~= self.visits@);
            assert(self.spans@ + at(visit) =~= self.spans@);
        }
        self.visits = Ghost(self.visits@.push(visit));
    }

    /// Notes a visit at which `location` is found.
    pub fn note(
        &mut self,
        Ghost(visit): Ghost<Visit>,
        Ghost(at): Ghost<spec_fn(Visit) -> Seq<Option<Span>>>,
        location: Option<Span>,
    )
        requires
            old(self).follows(at),
            at(visit) == seq![location],
        ensures
            final(self).follows(at),
            final(self).visits() == old(self).visits().push(visit),
    {
        proof {
            assert(self.visits@.push(visit).drop_last() =~= self.visits@);
            assert(self.spans@ + seq![location] =~= self.spans@.push(location));
        }
        self.spans.push(location);
        self.visits = Ghost(self.visits@.push(visit));
    }

    /// A copy of the locations that were found.
    pub fn locations(&self) -> (found: Vec<Option<Span>>)
        ensures
            found@ == self.spans(),
    {
        copied(&self.spans)
    }
}

/// A copy of the locations in `spans`.
pub fn copied(spans: &Vec<Option<Span>>) -> (copy: Vec<Option<Span>>)
    ensures
        copy@ == spans@,
{
    let mut copy: Vec<Option<Span>> = Vec::new();
    let mut index: usize = 0;
    while index < spans.len()
        invariant
            index <= spans@.len(),
            copy@ == spans@.take(index as int),
        decreases spans@.len() - index,
    {
        copy.push(spans[index]);
        assert(copy@ =~= spans@.take(index + 1));
        index += 1;
    }
    assert(spans@.take(spans@.len() as int) =~= spans@);
    copy
}

/// The texts of a sequence of strings.
pub open spec fn string_views(strings: Seq<String>) -> Seq<Seq<char>> {
    strings.map_values(|string: String| string@)
}

/// Whether `text` is among `texts`, character for character.
pub fn holds_text(texts: &Vec<String>, text: &str) -> (holds: bool)
    ensures
        holds == string_views(texts@).contains(text@),
{
    let mut index: usize = 0;
    while index < texts.len()
        invariant
            index <= texts@.len(),
            forall|i: int| 0 <= i < index ==> string_views(texts@)[i] != text@,
        decreases texts@.len() - index,
    {
        if str_eq(texts[index].as_str(), text) {
            assert(string_views(texts@)[index as int] == text@);
            return true;
        }
        index += 1;
    }
    false
}

/// The releases that were shown, in order.
pub open spec fn released(visits: Seq<Visit>) -> Seq<ReleaseView>
    decreases visits.len(),
{
    if visits.len() == 0 {
        Seq::empty()
    } else {
        let before = released(visits.drop_last());
        match visits.last() {
            Visit::Release(release) => before.push(release),
            _ => before,
        }
    }
}

/// Visits that show no release add no release.
pub proof fn lemma_released_ignores(visits: Seq<Visit>, more: Seq<Visit>)
    requires
        forall|i: int| 0 <= i < more.len() ==> !(#[trigger] more[i] is Release),
    ensures
        released(visits + more) == released(visits),
    decreases more.len(),
{
    if more.len() == 0 {
        assert(visits + more =~= visits);
    } else {
        assert((visits + more).drop_last() =~= visits + more.drop_last());
        assert((visits + more).last() == more[more.len() - 1]);
        lemma_released_ignores(visits, more.drop_last());
    }
}

/// Whether one of `visits` is as `is` asks.
pub open spec fn any_visit(visits: Seq<Visit>, is: spec_fn(Visit) -> bool) -> bool {
    exists|i: int| 0 <= i < visits.len() && is(#[trigger] visits[i])
}

/// One more visit is as `is` asks, or one before it was.
pub proof fn lemma_any_visit_push(visits: Seq<Visit>, visit: Visit, is: spec_fn(Visit) -> bool)
    ensures
        any_visit(visits.push(visit), is) == (any_visit(visits, is) || is(visit)),
{
    let more = visits.push(visit);
    if any_visit(visits, is) {
        let i = choose|i: int| 0 <= i < visits.len() && is(#[trigger] visits[i]);
        assert(is(more[i]));
    }
    if is(visit) {
        assert(is(more[visits.len() as int]));
    }
    if any_visit(more, is) {
        let i = choose|i: int| 0 <= i < more.len() && is(#[trigger] more[i]);
        if i < visits.len() {
            assert(is(visits[i]));
        }
    }
}

} // verus!
