//! The linter.
use vstd::prelude::*;

use crate::changelog::parsed::{
    changes_views, ChangelogView, InvalidSpan, ParsedChangelog, ParsedChanges,
};
use crate::diagnostic::Diagnostic;
use crate::rule::Rule;
use crate::ruleset::RuleSet;
use crate::span::Span;

pub mod check;
pub mod checks;
pub mod dates;
pub mod versions;
pub mod walk;

use check::{any_visit, Check, Visit};
use checks::{misplaced_releases, repeated_kinds, repeated_versions};
use walk::{
    changes_visits, lemma_release_scopes, lemma_scope_ignores, lemma_section_scope,
    lemma_walk_shows, lemma_walk_shows_releases, release_visits, repeated_kinds_in, visits_of,
};

verus! {

/// A violation that a check found: the rule and the location.
pub type Finding = (Rule, Option<Span>);

/// The checks in the order in which the linter runs them, each named by its
/// rule.
pub open spec fn check_order() -> Seq<Rule> {
    seq![
        Rule::MissingTitle,
        Rule::DuplicateTitle,
        Rule::MissingUnreleased,
        Rule::DuplicateUnreleased,
        Rule::InvalidUnreleasedPosition,
        Rule::InvalidSectionHeading,
        Rule::InvalidTitle,
        Rule::EmptySection,
        Rule::UnknownChangeType,
        Rule::DuplicateChangeType,
        Rule::InvalidReleaseOrder,
        Rule::DuplicateVersion,
        Rule::MissingDate,
        Rule::InvalidDate,
        Rule::InvalidYanked,
        Rule::UndefinedLinkReference,
    ]
}

/// What the check of `rule` finds on a walk.
pub open spec fn rule_findings(rule: Rule, visits: Seq<Visit>) -> Seq<Option<Span>> {
    match rule {
        Rule::MissingTitle => checks::MissingTitle::findings(visits),
        Rule::DuplicateTitle => checks::DuplicateTitle::findings(visits),
        Rule::MissingUnreleased => checks::MissingUnreleased::findings(visits),
        Rule::DuplicateUnreleased => checks::DuplicateUnreleased::findings(visits),
        Rule::InvalidUnreleasedPosition => checks::UnreleasedOutOfOrder::findings(visits),
        Rule::InvalidSectionHeading => checks::InvalidSectionHeading::findings(visits),
        Rule::InvalidTitle => checks::InvalidTitle::findings(visits),
        Rule::EmptySection => checks::EmptySection::findings(visits),
        Rule::UnknownChangeType => checks::UnknownChangeType::findings(visits),
        Rule::DuplicateChangeType => checks::DuplicateChangeType::findings(visits),
        Rule::InvalidReleaseOrder => checks::InvalidReleaseOrder::findings(visits),
        Rule::DuplicateVersion => checks::DuplicateVersion::findings(visits),
        Rule::MissingDate => checks::MissingDate::findings(visits),
        Rule::InvalidDate => checks::InvalidDate::findings(visits),
        Rule::InvalidYanked => checks::InvalidYanked::findings(visits),
        Rule::UndefinedLinkReference => checks::LinkReferenceDoesNotExist::findings(visits),
    }
}

/// The violations of `rule` at `locations`.
pub open spec fn findings_of(rule: Rule, locations: Seq<Option<Span>>) -> Seq<Finding> {
    locations.map_values(|location: Option<Span>| (rule, location))
}

/// What the first `count` checks find in a changelog, those left out whose
/// rule is not in `enabled`: the findings of each check together, and the
/// checks in their order.
pub open spec fn linted(changelog: ChangelogView, enabled: Set<Rule>, count: int) -> Seq<Finding>
    decreases count,
{
    if count <= 0 {
        Seq::empty()
    } else {
        let rule = check_order()[count - 1];
        let before = linted(changelog, enabled, count - 1);
        if enabled.contains(rule) {
            before + findings_of(rule, rule_findings(rule, visits_of(changelog)))
        } else {
            before
        }
    }
}

/// The rule and the location of each of `diagnostics`.
pub open spec fn findings_in(diagnostics: Seq<Diagnostic>) -> Seq<Finding> {
    diagnostics.map_values(|diagnostic: Diagnostic| (diagnostic.rule, diagnostic.location))
}

/// Where the checks report what they found.
pub struct Context {
    diagnostics: Vec<Diagnostic>,
}

impl Context {
    /// The rule and the location of each diagnostic that was reported, in order.
    pub closed spec fn reported(&self) -> Seq<Finding> {
        findings_in(self.diagnostics@)
    }

    /// Whether no diagnostic that was reported names a path.
    pub closed spec fn pathless(&self) -> bool {
        forall|i: int|
            0 <= i < self.diagnostics@.len() ==> (#[trigger] self.diagnostics@[i]).path is None
    }

    /// Reports a violation of `rule` at `span`.
    pub fn report(&mut self, rule: Rule, span: Option<Span>)
        requires
            old(self).pathless(),
        ensures
            final(self).pathless(),
            final(self).reported() == old(self).reported().push((rule, span)),
    {
        let ghost before = findings_in(self.diagnostics@);
        self.diagnostics.push(Diagnostic::new(rule, span));
        assert(findings_in(self.diagnostics@) =~= before.push((rule, span)));
    }
}

impl Default for Context {
    fn default() -> (context: Context)
        ensures
            context.pathless(),
            context.reported() == Seq::<Finding>::empty(),
    {
        let context = Context { diagnostics: Vec::new() };
        assert(findings_in(context.diagnostics@) =~= Seq::empty());
        context
    }
}

/// Shows a check the groups of changes of a section.
fn walk_changes<C: Check>(check: &mut C, changes: &Vec<ParsedChanges>)
    requires
        old(check).wf(),
    ensures
        final(check).wf(),
        final(check).seen() == old(check).seen() + changes_visits(changes_views(changes@)),
{
    let ghost all = changes_visits(changes_views(changes@));
    let mut index: usize = 0;
    assert(old(check).seen() + all.take(0) =~= old(check).seen());
    while index < changes.len()
        invariant
            all == changes_visits(changes_views(changes@)),
            index <= changes@.len(),
            check.wf(),
            check.seen() == old(check).seen() + all.take(index as int),
        decreases changes@.len() - index,
    {
        check.visit_changes(&changes[index]);
        assert(all.take(index + 1) =~= all.take(index as int).push(
            Visit::Changes(changes@[index as int]@),
        ));
        assert(check.seen() =~= old(check).seen() + all.take(index + 1));
        index += 1;
    }
    assert(all.take(all.len() as int) =~= all);
}

/// Walks a check over a changelog.
fn walk<C: Check>(check: &mut C, changelog: &ParsedChangelog)
    requires
        old(check).wf(),
        old(check).seen() == Seq::<Visit>::empty(),
    ensures
        final(check).wf(),
        final(check).seen() == visits_of(changelog@),
{
    let ghost view = changelog@;
    check.visit_changelog(changelog);
    match &changelog.unreleased {
        Some(unreleased) => {
            check.visit_unreleased(unreleased);
            walk_changes(check, &unreleased.changes);
        },
        None => {},
    }
    let ghost head = check.seen();
    assert(head =~= seq![Visit::Changelog(view)] + (match view.unreleased {
        Some(unreleased) => seq![Visit::Unreleased(unreleased)] + changes_visits(
            unreleased.changes,
        ),
        None => Seq::empty(),
    }));
    let mut index: usize = 0;
    assert(head + release_visits(view.releases, 0) =~= head);
    while index < changelog.releases.len()
        invariant
            view == changelog@,
            index <= changelog.releases@.len(),
            check.wf(),
            check.seen() == head + release_visits(view.releases, index as int),
        decreases changelog.releases@.len() - index,
    {
        let release = &changelog.releases[index];
        check.visit_release(release);
        walk_changes(check, &release.changes);
        assert(view.releases[index as int] == release@);
        assert(check.seen() =~= head + release_visits(view.releases, index + 1));
        index += 1;
    }
    let ghost body = check.seen();
    let ghost marks = view.invalid_spans.map_values(|span: InvalidSpan| Visit::Invalid(span));
    let mut mark: usize = 0;
    assert(body + marks.take(0) =~= body);
    while mark < changelog.invalid_spans.len()
        invariant
            view == changelog@,
            marks == view.invalid_spans.map_values(|span: InvalidSpan| Visit::Invalid(span)),
            mark <= changelog.invalid_spans@.len(),
            check.wf(),
            check.seen() == body + marks.take(mark as int),
        decreases changelog.invalid_spans@.len() - mark,
    {
        check.visit_invalid_span(&changelog.invalid_spans[mark]);
        assert(marks.take(mark + 1) =~= marks.take(mark as int).push(
            Visit::Invalid(changelog.invalid_spans@[mark as int]),
        ));
        assert(check.seen() =~= body + marks.take(mark + 1));
        mark += 1;
    }
    assert(marks.take(marks.len() as int) =~= marks);
    check.finalize();
    assert(check.seen() =~= visits_of(view));
}

/// Walks a check over a changelog and reports what it finds.
fn run<C: Check>(check: C, changelog: &ParsedChangelog, context: &mut Context)
    requires
        check.wf(),
        check.seen() == Seq::<Visit>::empty(),
        old(context).pathless(),
    ensures
        final(context).pathless(),
        final(context).reported() == old(context).reported() + findings_of(
            C::spec_rule(),
            C::findings(visits_of(changelog@)),
        ),
{
    let mut check = check;
    walk(&mut check, changelog);
    let rule = check.rule();
    let locations = check.locations();
    let ghost all = findings_of(rule, locations@);
    let mut index: usize = 0;
    assert(old(context).reported() + all.take(0) =~= old(context).reported());
    while index < locations.len()
        invariant
            all == findings_of(rule, locations@),
            index <= locations@.len(),
            context.pathless(),
            context.reported() == old(context).reported() + all.take(index as int),
        decreases locations@.len() - index,
    {
        context.report(rule, locations[index]);
        assert(all.take(index + 1) =~= all.take(index as int).push(
            (rule, locations@[index as int]),
        ));
        assert(context.reported() =~= old(context).reported() + all.take(index + 1));
        index += 1;
    }
    assert(all.take(all.len() as int) =~= all);
}

/// The checks in the order in which the linter runs them, each named by its
/// rule.
pub fn checks() -> (order: Vec<Rule>)
    ensures
        order@ == check_order(),
{
    let order = vec![
        Rule::MissingTitle,
        Rule::DuplicateTitle,
        Rule::MissingUnreleased,
        Rule::DuplicateUnreleased,
        Rule::InvalidUnreleasedPosition,
        Rule::InvalidSectionHeading,
        Rule::InvalidTitle,
        Rule::EmptySection,
        Rule::UnknownChangeType,
        Rule::DuplicateChangeType,
        Rule::InvalidReleaseOrder,
        Rule::DuplicateVersion,
        Rule::MissingDate,
        Rule::InvalidDate,
        Rule::InvalidYanked,
        Rule::UndefinedLinkReference,
    ];
    assert(order@ =~= check_order());
    order
}

/// A changelog linter.
#[derive(Debug)]
pub struct Linter {
    ruleset: RuleSet,
    filename: Option<String>,
}

impl Linter {
    /// The rules that the linter checks.
    pub closed spec fn rules(&self) -> Set<Rule> {
        self.ruleset@
    }

    /// The path that the linter names in its diagnostics.
    pub closed spec fn path(&self) -> Option<String> {
        self.filename
    }

    /// A linter that checks the rules of `ruleset` and names no path.
    pub fn new(ruleset: &RuleSet) -> (linter: Linter)
        ensures
            linter.rules() == ruleset@,
            linter.path() is None,
    {
        Linter { ruleset: *ruleset, filename: None }
    }

    /// The linter with `filename` as the path that its diagnostics name.
    pub fn with_filename(self, filename: Option<String>) -> (linter: Linter)
        ensures
            linter.rules() == self.rules(),
            linter.path() == filename,
    {
        Linter { ruleset: self.ruleset, filename }
    }

    /// Whether `diagnostics` are what the linter reports for `changelog`:
    /// what the checks of its rules find, each with the path of the linter.
    pub open spec fn reports(
        &self,
        changelog: ChangelogView,
        diagnostics: Seq<Diagnostic>,
    ) -> bool {
        &&& findings_in(diagnostics) == linted(changelog, self.rules(), check_order().len() as int)
        &&& forall|i: int|
            0 <= i < diagnostics.len() ==> (#[trigger] diagnostics[i]).path == self.path()
    }

    /// Lints a changelog: runs the check of each rule of the linter over it,
    /// and gives what the checks found.
    pub fn lint(&self, changelog: &ParsedChangelog) -> (diagnostics: Vec<Diagnostic>)
        ensures
            self.reports(changelog@, diagnostics@),
    {
        let order = checks();
        let mut context = Context::default();
        let mut index: usize = 0;
        while index < order.len()
            invariant
                order@ == check_order(),
                index <= order@.len(),
                context.pathless(),
                context.reported() == linted(changelog@, self.rules(), index as int),
            decreases order@.len() - index,
        {
            let rule = order[index];
            if self.ruleset.is_enabled(rule) {
                match rule {
                    Rule::MissingTitle => run(
                        checks::MissingTitle::default(),
                        changelog,
                        &mut context,
                    ),
                    Rule::DuplicateTitle => run(
                        checks::DuplicateTitle::default(),
                        changelog,
                        &mut context,
                    ),
                    Rule::MissingUnreleased => run(
                        checks::MissingUnreleased::default(),
                        changelog,
                        &mut context,
                    ),
                    Rule::DuplicateUnreleased => run(
                        checks::DuplicateUnreleased::default(),
                        changelog,
                        &mut context,
                    ),
                    Rule::InvalidUnreleasedPosition => run(
                        checks::UnreleasedOutOfOrder::default(),
                        changelog,
                        &mut context,
                    ),
                    Rule::InvalidSectionHeading => run(
                        checks::InvalidSectionHeading::default(),
                        changelog,
                        &mut context,
                    ),
                    Rule::InvalidTitle => run(
                        checks::InvalidTitle::default(),
                        changelog,
                        &mut context,
                    ),
                    Rule::EmptySection => run(
                        checks::EmptySection::default(),
                        changelog,
                        &mut context,
                    ),
                    Rule::UnknownChangeType => run(
                        checks::UnknownChangeType::default(),
                        changelog,
                        &mut context,
                    ),
                    Rule::DuplicateChangeType => run(
                        checks::DuplicateChangeType::default(),
                        changelog,
                        &mut context,
                    ),
                    Rule::InvalidReleaseOrder => run(
                        checks::InvalidReleaseOrder::default(),
                        changelog,
                        &mut context,
                    ),
                    Rule::DuplicateVersion => run(
                        checks::DuplicateVersion::default(),
                        changelog,
                        &mut context,
                    ),
                    Rule::MissingDate => run(
                        checks::MissingDate::default(),
                        changelog,
                        &mut context,
                    ),
                    Rule::InvalidDate => run(
                        checks::InvalidDate::default(),
                        changelog,
                        &mut context,
                    ),
                    Rule::InvalidYanked => run(
                        checks::InvalidYanked::default(),
                        changelog,
                        &mut context,
                    ),
                    Rule::UndefinedLinkReference => run(
                        checks::LinkReferenceDoesNotExist::default(),
                        changelog,
                        &mut context,
                    ),
                }
            }
            index += 1;
        }
        let found = context.diagnostics;
        let mut diagnostics: Vec<Diagnostic> = Vec::new();
        let mut next: usize = 0;
        while next < found.len()
            invariant
                next <= found@.len(),
                diagnostics@.len() == next,
                forall|i: int|
                    0 <= i < next ==> {
                        &&& (#[trigger] diagnostics@[i]).rule == found@[i].rule
                        &&& diagnostics@[i].location == found@[i].location
                        &&& diagnostics@[i].path == self.filename
                    },
            decreases found@.len() - next,
        {
            diagnostics.push(
                Diagnostic {
                    rule: found[next].rule,
                    location: found[next].location,
                    path: self.filename.clone(),
                },
            );
            next += 1;
        }
        assert(findings_in(diagnostics@) =~= findings_in(found@));
        diagnostics
    }
}

impl Default for Linter {
    /// A linter that checks all rules.
    fn default() -> (linter: Linter)
        ensures
            forall|rule: Rule| linter.rules().contains(rule),
            linter.path() is None,
    {
        Linter { ruleset: RuleSet::all(), filename: None }
    }
}

/// A changelog without a title breaks the rule of the title once, and a
/// changelog with a title not at all.
pub proof fn lemma_missing_title(changelog: ChangelogView)
    ensures
        rule_findings(Rule::MissingTitle, visits_of(changelog)) == if changelog.title is Some {
            Seq::<Option<Span>>::empty()
        } else {
            seq![None]
        },
{
    let visits = visits_of(changelog);
    lemma_walk_shows(changelog, 0);
    if any_visit(visits, checks::MissingTitle::is()) {
        let index = choose|i: int|
            0 <= i < visits.len() && (checks::MissingTitle::is())(#[trigger] visits[i]);
        lemma_walk_shows(changelog, index);
    }
    if changelog.title is Some {
        assert((checks::MissingTitle::is())(visits[0]));
    }
}

/// A changelog without an unreleased section breaks the rule of the
/// unreleased section once, and a changelog with one not at all.
pub proof fn lemma_missing_unreleased(changelog: ChangelogView)
    ensures
        rule_findings(Rule::MissingUnreleased, visits_of(changelog))
            == if changelog.unreleased is Some {
            Seq::<Option<Span>>::empty()
        } else {
            seq![None]
        },
{
    let visits = visits_of(changelog);
    lemma_walk_shows(changelog, 0);
    if any_visit(visits, checks::MissingUnreleased::is()) {
        let index = choose|i: int|
            0 <= i < visits.len() && (checks::MissingUnreleased::is())(#[trigger] visits[i]);
        lemma_walk_shows(changelog, index);
    }
    if changelog.unreleased is Some {
        assert((checks::MissingUnreleased::is())(visits[1]));
    }
}

/// The rule of the versions is broken by each release whose version an
/// earlier release of the changelog has, and by no other.
pub proof fn lemma_duplicate_versions(changelog: ChangelogView)
    ensures
        rule_findings(Rule::DuplicateVersion, visits_of(changelog)) == repeated_versions(
            changelog.releases,
            changelog.releases.len() as int,
        ),
{
    lemma_walk_shows_releases(changelog);
}

/// The rule of the order of releases is broken by each release of the
/// changelog that may not stand right behind the release before it, and by
/// no other.
pub proof fn lemma_release_order(changelog: ChangelogView)
    ensures
        rule_findings(Rule::InvalidReleaseOrder, visits_of(changelog)) == misplaced_releases(
            changelog.releases,
        ),
{
    lemma_walk_shows_releases(changelog);
    lemma_walk_shows(changelog, 0);
}

/// The rule of the types of changes is broken by each group of changes
/// whose type an earlier group of the same section has, and by no other:
/// what one section holds has no bearing on another.
pub proof fn lemma_duplicate_change_types(changelog: ChangelogView)
    ensures
        rule_findings(Rule::DuplicateChangeType, visits_of(changelog)) == (match changelog.unreleased {
            Some(unreleased) => repeated_kinds(
                unreleased.changes,
                unreleased.changes.len() as int,
            ),
            None => Seq::empty(),
        }) + repeated_kinds_in(changelog.releases, changelog.releases.len() as int),
{
    let first = seq![Visit::Changelog(changelog)];
    let shown = release_visits(changelog.releases, changelog.releases.len() as int);
    let marks = changelog.invalid_spans.map_values(|span: InvalidSpan| Visit::Invalid(span));
    lemma_scope_ignores(Seq::empty(), first);
    assert(Seq::<Visit>::empty() + first =~= first);
    let head = match changelog.unreleased {
        Some(unreleased) => {
            let groups = changes_visits(unreleased.changes);
            lemma_section_scope(
                first,
                Visit::Unreleased(unreleased),
                unreleased.changes,
                unreleased.changes.len() as int,
            );
            assert(groups.take(unreleased.changes.len() as int) =~= groups);
            assert(first.push(Visit::Unreleased(unreleased)) + groups =~= first + (seq![
                Visit::Unreleased(unreleased),
            ] + groups));
            first + (seq![Visit::Unreleased(unreleased)] + groups)
        },
        None => {
            assert(first + Seq::<Visit>::empty() =~= first);
            first + Seq::<Visit>::empty()
        },
    };
    lemma_release_scopes(head, changelog.releases, changelog.releases.len() as int);
    lemma_scope_ignores(head + shown, marks + seq![Visit::Finalize]);
    assert(visits_of(changelog) =~= head + shown + (marks + seq![Visit::Finalize]));
}

/// Linting the same changelog twice with the same linter gives the same
/// diagnostics, in the same order: the same rules, locations and paths.
pub proof fn lemma_lint_is_repeatable(
    linter: Linter,
    changelog: ChangelogView,
    first: Seq<Diagnostic>,
    second: Seq<Diagnostic>,
)
    requires
        linter.reports(changelog, first),
        linter.reports(changelog, second),
    ensures
        first.len() == second.len(),
        forall|i: int|
            0 <= i < first.len() ==> {
                &&& (#[trigger] first[i]).rule == second[i].rule
                &&& first[i].location == second[i].location
                &&& first[i].path == second[i].path
            },
{
    assert(findings_in(first).len() == findings_in(second).len());
    assert forall|i: int| 0 <= i < first.len() implies {
        &&& (#[trigger] first[i]).rule == second[i].rule
        &&& first[i].location == second[i].location
        &&& first[i].path == second[i].path
    } by {
        assert(findings_in(first)[i] == findings_in(second)[i]);
    }
}

} // verus!
