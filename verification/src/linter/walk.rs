//! The walk over a changelog, and what it shows.
use vstd::prelude::*;

use super::check::{lemma_released_ignores, released, Visit};
use super::checks::{duplicate_change_types, kinds_in_scope, kinds_of, repeated_kinds};
use crate::changelog::parsed::{ChangelogView, ChangesView, InvalidSpan, ReleaseView};
use crate::span::Span;

verus! {

/// The visits that show the groups of changes of a section, in order.
pub open spec fn changes_visits(changes: Seq<ChangesView>) -> Seq<Visit> {
    changes.map_values(|group: ChangesView| Visit::Changes(group))
}

/// The visits that show the first `count` releases, in order: each release,
/// and behind it its groups of changes.
pub open spec fn release_visits(releases: Seq<ReleaseView>, count: int) -> Seq<Visit>
    decreases count,
{
    if count <= 0 {
        Seq::empty()
    } else {
        release_visits(releases, count - 1) + seq![Visit::Release(releases[count - 1])]
            + changes_visits(releases[count - 1].changes)
    }
}

/// The walk over a changelog, which is the same for every check: the
/// changelog as a whole; the unreleased section, if there is one, and its
/// groups of changes; each release and its groups of changes; each invalid
/// span; the end.
pub open spec fn visits_of(changelog: ChangelogView) -> Seq<Visit> {
    seq![Visit::Changelog(changelog)] + (match changelog.unreleased {
        Some(unreleased) => seq![Visit::Unreleased(unreleased)] + changes_visits(
            unreleased.changes,
        ),
        None => Seq::empty(),
    }) + release_visits(changelog.releases, changelog.releases.len() as int)
        + changelog.invalid_spans.map_values(|span: InvalidSpan| Visit::Invalid(span)) + seq![
        Visit::Finalize,
    ]
}

/// The visits that show releases show nothing but releases and groups of
/// changes.
pub proof fn lemma_release_visits_show(releases: Seq<ReleaseView>, count: int, index: int)
    requires
        0 <= index < release_visits(releases, count).len(),
    ensures
        release_visits(releases, count)[index] is Release || release_visits(
            releases,
            count,
        )[index] is Changes,
    decreases count,
{
    if count > 0 {
        let before = release_visits(releases, count - 1);
        if index < before.len() {
            lemma_release_visits_show(releases, count - 1, index);
        }
    }
}

/// A walk shows the changelog as a whole first and never again, and no
/// unreleased section but that of the changelog.
pub proof fn lemma_walk_shows(changelog: ChangelogView, index: int)
    requires
        0 <= index < visits_of(changelog).len(),
    ensures
        visits_of(changelog)[0] == Visit::Changelog(changelog),
        visits_of(changelog).last() == Visit::Finalize,
        index > 0 ==> !(visits_of(changelog)[index] is Changelog),
        visits_of(changelog)[index] matches Visit::Unreleased(unreleased) ==> changelog.unreleased
            == Some(unreleased),
        changelog.unreleased matches Some(unreleased) ==> visits_of(changelog)[1]
            == Visit::Unreleased(unreleased),
{
    let head = seq![Visit::Changelog(changelog)] + (match changelog.unreleased {
        Some(unreleased) => seq![Visit::Unreleased(unreleased)] + changes_visits(
            unreleased.changes,
        ),
        None => Seq::empty(),
    });
    let shown = release_visits(changelog.releases, changelog.releases.len() as int);
    if head.len() <= index < head.len() + shown.len() {
        lemma_release_visits_show(
            changelog.releases,
            changelog.releases.len() as int,
            index - head.len(),
        );
    }
}

/// Behind the visits `before`, the visits that show the first `count` of
/// `releases` show those releases, in order.
pub proof fn lemma_release_visits_release(
    before: Seq<Visit>,
    releases: Seq<ReleaseView>,
    count: int,
)
    requires
        0 <= count <= releases.len(),
    ensures
        released(before + release_visits(releases, count)) == released(before) + releases.take(
            count,
        ),
    decreases count,
{
    if count == 0 {
        assert(before + release_visits(releases, 0) =~= before);
        assert(released(before) + releases.take(0) =~= released(before));
    } else {
        let earlier = before + release_visits(releases, count - 1);
        let release = releases[count - 1];
        let groups = changes_visits(release.changes);
        lemma_release_visits_release(before, releases, count - 1);
        assert(before + release_visits(releases, count) =~= earlier.push(Visit::Release(release))
            + groups);
        lemma_released_ignores(earlier.push(Visit::Release(release)), groups);
        assert(earlier.push(Visit::Release(release)).drop_last() =~= earlier);
        assert(releases.take(count) =~= releases.take(count - 1).push(release));
        assert(released(before) + releases.take(count) =~= (released(before) + releases.take(
            count - 1,
        )).push(release));
    }
}

/// The releases that a walk over a changelog shows are the releases of the
/// changelog, in order: all of them are shown when the walk ends.
pub proof fn lemma_walk_shows_releases(changelog: ChangelogView)
    ensures
        released(visits_of(changelog).drop_last()) == changelog.releases,
        released(visits_of(changelog)) == changelog.releases,
{
    let first = seq![Visit::Changelog(changelog)];
    let unreleased = match changelog.unreleased {
        Some(unreleased) => seq![Visit::Unreleased(unreleased)] + changes_visits(
            unreleased.changes,
        ),
        None => Seq::empty(),
    };
    let shown = release_visits(changelog.releases, changelog.releases.len() as int);
    let marks = changelog.invalid_spans.map_values(|span: InvalidSpan| Visit::Invalid(span));
    lemma_released_ignores(Seq::empty(), first + unreleased);
    assert(Seq::<Visit>::empty() + (first + unreleased) =~= first + unreleased);
    lemma_release_visits_release(
        first + unreleased,
        changelog.releases,
        changelog.releases.len() as int,
    );
    assert(changelog.releases.take(changelog.releases.len() as int) =~= changelog.releases);
    assert(released(first + unreleased) + changelog.releases =~= changelog.releases);
    lemma_released_ignores(first + unreleased + shown, marks);
    assert(visits_of(changelog).drop_last() =~= first + unreleased + shown + marks);
    lemma_released_ignores(first + unreleased + shown + marks, seq![Visit::Finalize]);
}

/// The span of the type of each group of changes of the first `count` of
/// `releases` whose type an earlier group of the same release has, in order.
pub open spec fn repeated_kinds_in(releases: Seq<ReleaseView>, count: int) -> Seq<Option<Span>>
    decreases count,
{
    if count <= 0 {
        Seq::empty()
    } else {
        let groups = releases[count - 1].changes;
        repeated_kinds_in(releases, count - 1) + repeated_kinds(groups, groups.len() as int)
    }
}

/// Behind a visit that shows a section, the first `count` groups of changes
/// of the section are in scope, and what is found among them is added to what
/// was found before the section.
pub proof fn lemma_section_scope(
    before: Seq<Visit>,
    section: Visit,
    groups: Seq<ChangesView>,
    count: int,
)
    requires
        section is Unreleased || section is Release,
        0 <= count <= groups.len(),
    ensures
        kinds_in_scope(before.push(section) + changes_visits(groups).take(count)) == kinds_of(
            groups.take(count),
        ),
        duplicate_change_types(before.push(section) + changes_visits(groups).take(count))
            == duplicate_change_types(before) + repeated_kinds(groups, count),
    decreases count,
{
    let opened = before.push(section);
    let shown = opened + changes_visits(groups).take(count);
    if count == 0 {
        assert(shown =~= opened);
        assert(opened.drop_last() =~= before);
        assert(kinds_of(groups.take(0)) =~= Seq::empty());
        assert(duplicate_change_types(before) + repeated_kinds(groups, 0)
            =~= duplicate_change_types(before));
    } else {
        let earlier = opened + changes_visits(groups).take(count - 1);
        let group = groups[count - 1];
        lemma_section_scope(before, section, groups, count - 1);
        assert(shown =~= earlier.push(Visit::Changes(group)));
        assert(shown.drop_last() =~= earlier);
        assert(kinds_of(groups.take(count)) =~= kinds_of(groups.take(count - 1)).push(
            group.kind.value,
        ));
        assert(duplicate_change_types(shown) =~= duplicate_change_types(before) + repeated_kinds(
            groups,
            count,
        ));
    }
}

/// Behind the visits `before`, what is found among the groups of changes of
/// the first `count` of `releases` is what is found in each release by itself.
pub proof fn lemma_release_scopes(before: Seq<Visit>, releases: Seq<ReleaseView>, count: int)
    requires
        0 <= count <= releases.len(),
    ensures
        duplicate_change_types(before + release_visits(releases, count)) == duplicate_change_types(
            before,
        ) + repeated_kinds_in(releases, count),
    decreases count,
{
    if count == 0 {
        assert(before + release_visits(releases, 0) =~= before);
        assert(duplicate_change_types(before) + repeated_kinds_in(releases, 0)
            =~= duplicate_change_types(before));
    } else {
        let earlier = before + release_visits(releases, count - 1);
        let release = releases[count - 1];
        let groups = changes_visits(release.changes);
        lemma_release_scopes(before, releases, count - 1);
        lemma_section_scope(
            earlier,
            Visit::Release(release),
            release.changes,
            release.changes.len() as int,
        );
        assert(groups.take(release.changes.len() as int) =~= groups);
        assert(before + release_visits(releases, count) =~= earlier.push(Visit::Release(release))
            + groups);
        assert(duplicate_change_types(before + release_visits(releases, count))
            =~= duplicate_change_types(before) + repeated_kinds_in(releases, count));
    }
}

/// Visits that show neither a section nor a group of changes add nothing to
/// what the check of the types of changes finds.
pub proof fn lemma_scope_ignores(before: Seq<Visit>, more: Seq<Visit>)
    requires
        forall|i: int|
            0 <= i < more.len() ==> (#[trigger] more[i] is Invalid || more[i] is Finalize
                || more[i] is Changelog),
    ensures
        duplicate_change_types(before + more) == duplicate_change_types(before),
    decreases more.len(),
{
    if more.len() == 0 {
        assert(before + more =~= before);
    } else {
        assert((before + more).drop_last() =~= before + more.drop_last());
        assert((before + more).last() == more[more.len() - 1]);
        lemma_scope_ignores(before, more.drop_last());
    }
}

} // verus!
