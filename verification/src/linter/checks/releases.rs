//! `E2xx`: releases.
use vstd::prelude::*;
use vstd::string::StringSliceAdditionalSpecFns;
use vstd::utf8::*;

use crate::changelog::parsed::{
    InvalidSpan, ParsedChangelog, ParsedChanges, ParsedRelease, ParsedUnreleased, ReleaseView,
};
use crate::linter::check::{
    copied, gathered, holds_text, released, string_views, Check, Gathered, Visit,
};
use crate::linter::dates::{is_calendar_date, parses_as_date};
use crate::linter::versions::{compare_versions, version_comparison, Comparison};
use crate::rule::Rule;
use crate::span::Span;
use crate::text::str_eq;

verus! {

/// What is found at one visit: the heading of a release without a date.
pub open spec fn missing_date_at(visit: Visit) -> Seq<Option<Span>> {
    match visit {
        Visit::Release(release) => if release.date is None {
            seq![Some(release.heading_span)]
        } else {
            Seq::empty()
        },
        _ => Seq::empty(),
    }
}

/// Checks that each release has a date.
pub struct MissingDate {
    found: Gathered,
}

impl Default for MissingDate {
    fn default() -> (check: MissingDate)
        ensures
            check.wf(),
            check.seen() == Seq::<Visit>::empty(),
    {
        MissingDate { found: Gathered::new() }
    }
}

impl MissingDate {
    /// What the check finds at one visit.
    pub open spec fn at() -> spec_fn(Visit) -> Seq<Option<Span>> {
        |visit: Visit| missing_date_at(visit)
    }
}

impl Check for MissingDate {
    closed spec fn wf(&self) -> bool {
        self.found.follows(Self::at())
    }

    closed spec fn seen(&self) -> Seq<Visit> {
        self.found.visits()
    }

    open spec fn spec_rule() -> Rule {
        Rule::MissingDate
    }

    /// The heading of each release without a date, in the order in which the
    /// releases were shown.
    open spec fn findings(visits: Seq<Visit>) -> Seq<Option<Span>> {
        gathered(visits, Self::at())
    }

    fn rule(&self) -> (rule: Rule) {
        Rule::MissingDate
    }

    fn visit_changelog(&mut self, changelog: &ParsedChangelog) {
        self.found.pass(Ghost(Visit::Changelog(changelog@)), Ghost(Self::at()));
    }

    fn visit_unreleased(&mut self, unreleased: &ParsedUnreleased) {
        self.found.pass(Ghost(Visit::Unreleased(unreleased@)), Ghost(Self::at()));
    }

    fn visit_release(&mut self, release: &ParsedRelease) {
        if release.date.is_none() {
            self.found.note(
                Ghost(Visit::Release(release@)),
                Ghost(Self::at()),
                Some(release.heading_span),
            );
        } else {
            self.found.pass(Ghost(Visit::Release(release@)), Ghost(Self::at()));
        }
    }

    fn visit_changes(&mut self, changes: &ParsedChanges) {
        self.found.pass(Ghost(Visit::Changes(changes@)), Ghost(Self::at()));
    }

    fn visit_invalid_span(&mut self, span: &InvalidSpan) {
        self.found.pass(Ghost(Visit::Invalid(*span)), Ghost(Self::at()));
    }

    fn finalize(&mut self) {
        self.found.pass(Ghost(Visit::Finalize), Ghost(Self::at()));
    }

    fn locations(&self) -> (found: Vec<Option<Span>>) {
        self.found.locations()
    }
}

/// What is found at one visit: the date of a release, where it is no calendar
/// date.
pub open spec fn invalid_date_at(visit: Visit) -> Seq<Option<Span>> {
    match visit {
        Visit::Release(release) => match release.date {
            Some(date) => if is_calendar_date(date.value) {
                Seq::empty()
            } else {
                seq![Some(date.span)]
            },
            None => Seq::empty(),
        },
        _ => Seq::empty(),
    }
}

/// Checks that the date of each release is a calendar date in the form `year-
/// month-day`.
pub struct InvalidDate {
    found: Gathered,
}

impl Default for InvalidDate {
    fn default() -> (check: InvalidDate)
        ensures
            check.wf(),
            check.seen() == Seq::<Visit>::empty(),
    {
        InvalidDate { found: Gathered::new() }
    }
}

impl InvalidDate {
    /// What the check finds at one visit.
    pub open spec fn at() -> spec_fn(Visit) -> Seq<Option<Span>> {
        |visit: Visit| invalid_date_at(visit)
    }
}

impl Check for InvalidDate {
    closed spec fn wf(&self) -> bool {
        self.found.follows(Self::at())
    }

    closed spec fn seen(&self) -> Seq<Visit> {
        self.found.visits()
    }

    open spec fn spec_rule() -> Rule {
        Rule::InvalidDate
    }

    /// The span of the date of each release whose date is no calendar date, in
    /// the order in which the releases were shown. A release without a date is
    /// not among them.
    open spec fn findings(visits: Seq<Visit>) -> Seq<Option<Span>> {
        gathered(visits, Self::at())
    }

    fn rule(&self) -> (rule: Rule) {
        Rule::InvalidDate
    }

    fn visit_changelog(&mut self, changelog: &ParsedChangelog) {
        self.found.pass(Ghost(Visit::Changelog(changelog@)), Ghost(Self::at()));
    }

    fn visit_unreleased(&mut self, unreleased: &ParsedUnreleased) {
        self.found.pass(Ghost(Visit::Unreleased(unreleased@)), Ghost(Self::at()));
    }

    fn visit_release(&mut self, release: &ParsedRelease) {
        match &release.date {
            Some(date) => {
                if parses_as_date(date.value) {
                    self.found.pass(Ghost(Visit::Release(release@)), Ghost(Self::at()));
                } else {
                    self.found.note(
                        Ghost(Visit::Release(release@)),
                        Ghost(Self::at()),
                        Some(date.span),
                    );
                }
            },
            None => {
                self.found.pass(Ghost(Visit::Release(release@)), Ghost(Self::at()));
            },
        }
    }

    fn visit_changes(&mut self, changes: &ParsedChanges) {
        self.found.pass(Ghost(Visit::Changes(changes@)), Ghost(Self::at()));
    }

    fn visit_invalid_span(&mut self, span: &InvalidSpan) {
        self.found.pass(Ghost(Visit::Invalid(*span)), Ghost(Self::at()));
    }

    fn finalize(&mut self) {
        self.found.pass(Ghost(Visit::Finalize), Ghost(Self::at()));
    }

    fn locations(&self) -> (found: Vec<Option<Span>>) {
        self.found.locations()
    }
}

/// What is found at one visit: the yanked marker of a release, where it is not
/// `[YANKED]`.
pub open spec fn invalid_yanked_at(visit: Visit) -> Seq<Option<Span>> {
    match visit {
        Visit::Release(release) => match release.yanked {
            Some(yanked) => if yanked.value == "[YANKED]"@ {
                Seq::empty()
            } else {
                seq![Some(yanked.span)]
            },
            None => Seq::empty(),
        },
        _ => Seq::empty(),
    }
}

/// Checks that the yanked marker of each release is `[YANKED]`.
pub struct InvalidYanked {
    found: Gathered,
}

impl Default for InvalidYanked {
    fn default() -> (check: InvalidYanked)
        ensures
            check.wf(),
            check.seen() == Seq::<Visit>::empty(),
    {
        InvalidYanked { found: Gathered::new() }
    }
}

impl InvalidYanked {
    /// What the check finds at one visit.
    pub open spec fn at() -> spec_fn(Visit) -> Seq<Option<Span>> {
        |visit: Visit| invalid_yanked_at(visit)
    }
}

impl Check for InvalidYanked {
    closed spec fn wf(&self) -> bool {
        self.found.follows(Self::at())
    }

    closed spec fn seen(&self) -> Seq<Visit> {
        self.found.visits()
    }

    open spec fn spec_rule() -> Rule {
        Rule::InvalidYanked
    }

    /// The span of the yanked marker of each release whose marker is not
    /// `[YANKED]`, in the order in which the releases were shown.
    open spec fn findings(visits: Seq<Visit>) -> Seq<Option<Span>> {
        gathered(visits, Self::at())
    }

    fn rule(&self) -> (rule: Rule) {
        Rule::InvalidYanked
    }

    fn visit_changelog(&mut self, changelog: &ParsedChangelog) {
        self.found.pass(Ghost(Visit::Changelog(changelog@)), Ghost(Self::at()));
    }

    fn visit_unreleased(&mut self, unreleased: &ParsedUnreleased) {
        self.found.pass(Ghost(Visit::Unreleased(unreleased@)), Ghost(Self::at()));
    }

    fn visit_release(&mut self, release: &ParsedRelease) {
        match &release.yanked {
            Some(yanked) => {
                if str_eq(yanked.value, "[YANKED]") {
                    self.found.pass(Ghost(Visit::Release(release@)), Ghost(Self::at()));
                } else {
                    self.found.note(
                        Ghost(Visit::Release(release@)),
                        Ghost(Self::at()),
                        Some(yanked.span),
                    );
                }
            },
            None => {
                self.found.pass(Ghost(Visit::Release(release@)), Ghost(Self::at()));
            },
        }
    }

    fn visit_changes(&mut self, changes: &ParsedChanges) {
        self.found.pass(Ghost(Visit::Changes(changes@)), Ghost(Self::at()));
    }

    fn visit_invalid_span(&mut self, span: &InvalidSpan) {
        self.found.pass(Ghost(Visit::Invalid(*span)), Ghost(Self::at()));
    }

    fn finalize(&mut self) {
        self.found.pass(Ghost(Visit::Finalize), Ghost(Self::at()));
    }

    fn locations(&self) -> (found: Vec<Option<Span>>) {
        self.found.locations()
    }
}

/// The versions of `releases`.
pub open spec fn versions_of(releases: Seq<ReleaseView>) -> Seq<Seq<char>> {
    releases.map_values(|release: ReleaseView| release.version.value)
}

/// The span of the version of each of the first `count` of `releases` whose
/// version an earlier release has, in order.
pub open spec fn repeated_versions(releases: Seq<ReleaseView>, count: int) -> Seq<Option<Span>>
    decreases count,
{
    if count <= 0 {
        Seq::empty()
    } else {
        let before = repeated_versions(releases, count - 1);
        let release = releases[count - 1];
        if versions_of(releases.take(count - 1)).contains(release.version.value) {
            before.push(Some(release.version.span))
        } else {
            before
        }
    }
}

/// What is found among the first releases does not depend on those behind
/// them.
pub proof fn lemma_repeated_versions_of_prefix(
    releases: Seq<ReleaseView>,
    release: ReleaseView,
    count: int,
)
    requires
        count <= releases.len(),
    ensures
        repeated_versions(releases.push(release), count) == repeated_versions(releases, count),
    decreases count,
{
    if count > 0 {
        lemma_repeated_versions_of_prefix(releases, release, count - 1);
        assert(releases.push(release).take(count - 1) =~= releases.take(count - 1));
    }
}

/// Checks that no two releases have the same version.
///
/// Versions are compared as they are written, character for character.
pub struct DuplicateVersion {
    spans: Vec<Option<Span>>,
    versions: Vec<String>,
    visits: Ghost<Seq<Visit>>,
}

impl Default for DuplicateVersion {
    fn default() -> (check: DuplicateVersion)
        ensures
            check.wf(),
            check.seen() == Seq::<Visit>::empty(),
    {
        let check = DuplicateVersion {
            spans: Vec::new(),
            versions: Vec::new(),
            visits: Ghost(Seq::empty()),
        };
        assert(string_views(check.versions@) =~= Seq::empty());
        assert(versions_of(released(check.visits@)) =~= Seq::empty());
        check
    }
}

impl Check for DuplicateVersion {
    closed spec fn wf(&self) -> bool {
        &&& self.spans@ == Self::findings(self.visits@)
        &&& string_views(self.versions@) == versions_of(released(self.visits@))
    }

    closed spec fn seen(&self) -> Seq<Visit> {
        self.visits@
    }

    open spec fn spec_rule() -> Rule {
        Rule::DuplicateVersion
    }

    /// The span of the version of each release whose version an earlier release
    /// has.
    open spec fn findings(visits: Seq<Visit>) -> Seq<Option<Span>> {
        repeated_versions(released(visits), released(visits).len() as int)
    }

    fn rule(&self) -> (rule: Rule) {
        Rule::DuplicateVersion
    }

    fn visit_changelog(&mut self, changelog: &ParsedChangelog) {
        proof {
            assert(self.visits@.push(Visit::Changelog(changelog@)).drop_last() =~= self.visits@);
        }
        self.visits = Ghost(self.visits@.push(Visit::Changelog(changelog@)));
    }

    fn visit_unreleased(&mut self, unreleased: &ParsedUnreleased) {
        proof {
            assert(self.visits@.push(Visit::Unreleased(unreleased@)).drop_last() =~= self.visits@);
        }
        self.visits = Ghost(self.visits@.push(Visit::Unreleased(unreleased@)));
    }

    fn visit_release(&mut self, release: &ParsedRelease) {
        proof {
            assert(self.visits@.push(Visit::Release(release@)).drop_last() =~= self.visits@);
        }
        proof {
            let shown = released(self.visits@);
            lemma_repeated_versions_of_prefix(shown, release@, shown.len() as int);
            assert(shown.push(release@).take(shown.len() as int) =~= shown);
        }
        if holds_text(&self.versions, release.version.value) {
            self.spans.push(Some(release.version.span));
        }
        let ghost before = string_views(self.versions@);
        self.versions.push(release.version.value.to_owned());
        assert(string_views(self.versions@) =~= before.push(release.version.value@));
        assert(versions_of(released(old(self).visits@).push(release@)) =~= before.push(
            release.version.value@,
        ));
        self.visits = Ghost(self.visits@.push(Visit::Release(release@)));
    }

    fn visit_changes(&mut self, changes: &ParsedChanges) {
        proof {
            assert(self.visits@.push(Visit::Changes(changes@)).drop_last() =~= self.visits@);
        }
        self.visits = Ghost(self.visits@.push(Visit::Changes(changes@)));
    }

    fn visit_invalid_span(&mut self, span: &InvalidSpan) {
        proof {
            assert(self.visits@.push(Visit::Invalid(*span)).drop_last() =~= self.visits@);
        }
        self.visits = Ghost(self.visits@.push(Visit::Invalid(*span)));
    }

    fn finalize(&mut self) {
        proof {
            assert(self.visits@.push(Visit::Finalize).drop_last() =~= self.visits@);
        }
        self.visits = Ghost(self.visits@.push(Visit::Finalize));
    }

    fn locations(&self) -> (found: Vec<Option<Span>>) {
        copied(&self.spans)
    }
}

/// How one date stands to another.
#[derive(Copy, Clone, Debug, PartialEq, Eq, Structural)]
pub enum DateOrder {
    Earlier,
    Same,
    Later,
}

/// What the order check keeps of a release.
pub struct ReleaseInfo {
    span: Span,
    version: String,
    date: Option<String>,
}

/// What a [`ReleaseInfo`] holds.
#[verifier::ext_equal]
pub struct ReleaseInfoView {
    pub span: Span,
    pub version: Seq<char>,
    pub date: Option<Seq<char>>,
}

impl View for ReleaseInfo {
    type V = ReleaseInfoView;

    closed spec fn view(&self) -> ReleaseInfoView {
        ReleaseInfoView {
            span: self.span,
            version: self.version@,
            date: match self.date {
                Some(date) => Some(date@),
                None => None,
            },
        }
    }
}

/// The views of a sequence of kept releases.
pub open spec fn info_views(infos: Seq<ReleaseInfo>) -> Seq<ReleaseInfoView> {
    infos.map_values(|info: ReleaseInfo| info@)
}

/// How the bytes `left` stand to the bytes `right` from place `index` on, in
/// the order of a dictionary: the first byte that differs decides, and a text
/// that ends first comes first.
pub open spec fn bytes_order(left: Seq<u8>, right: Seq<u8>, index: int) -> DateOrder
    decreases left.len() - index,
{
    if index >= left.len() {
        if index >= right.len() {
            DateOrder::Same
        } else {
            DateOrder::Earlier
        }
    } else if index >= right.len() {
        DateOrder::Later
    } else if left[index] < right[index] {
        DateOrder::Earlier
    } else if left[index] > right[index] {
        DateOrder::Later
    } else {
        bytes_order(left, right, index + 1)
    }
}

/// How the date `current` stands to the date `previous`. Dates are compared as
/// they are written, byte for byte; a release without a date counts as
/// earlier than any release with one.
pub open spec fn date_order(current: Option<Seq<char>>, previous: Option<Seq<char>>) -> DateOrder {
    match (current, previous) {
        (Some(current), Some(previous)) => bytes_order(
            encode_utf8(current),
            encode_utf8(previous),
            0,
        ),
        (Some(_), None) => DateOrder::Later,
        (None, Some(_)) => DateOrder::Earlier,
        (None, None) => DateOrder::Same,
    }
}

/// Whether the release `current` may not stand right behind the release
/// `previous`: it is later, or of the same date and a greater version. Where
/// one of the two has no version that can be read, nothing is wrong.
pub open spec fn out_of_order(previous: ReleaseInfoView, current: ReleaseInfoView) -> bool {
    match version_comparison(current.version, previous.version) {
        Some(versions) => match date_order(current.date, previous.date) {
            DateOrder::Earlier => false,
            DateOrder::Same => versions == Comparison::Greater,
            DateOrder::Later => true,
        },
        None => false,
    }
}

/// The heading of each of the first `count` releases that may not stand right
/// behind the release before it, in order.
pub open spec fn order_violations(releases: Seq<ReleaseInfoView>, count: int) -> Seq<Option<Span>>
    decreases count,
{
    if count <= 1 {
        Seq::empty()
    } else {
        let before = order_violations(releases, count - 1);
        if out_of_order(releases[count - 2], releases[count - 1]) {
            before.push(Some(releases[count - 1].span))
        } else {
            before
        }
    }
}

/// What the order check keeps of a release.
pub open spec fn info_of(release: ReleaseView) -> ReleaseInfoView {
    ReleaseInfoView {
        span: release.heading_span,
        version: release.version.value,
        date: match release.date {
            Some(date) => Some(date.value),
            None => None,
        },
    }
}

/// What the order check keeps of `releases`.
pub open spec fn release_infos(releases: Seq<ReleaseView>) -> Seq<ReleaseInfoView> {
    releases.map_values(|release: ReleaseView| info_of(release))
}

/// The heading of each of `releases` that may not stand right behind the
/// release before it, in order.
pub open spec fn misplaced_releases(releases: Seq<ReleaseView>) -> Seq<Option<Span>> {
    order_violations(release_infos(releases), releases.len() as int)
}

/// What the order check finds: the releases that were misplaced among those
/// shown when the walk ended last; nothing before the walk ends.
pub open spec fn release_order_findings(visits: Seq<Visit>) -> Seq<Option<Span>>
    decreases visits.len(),
{
    if visits.len() == 0 {
        Seq::empty()
    } else {
        match visits.last() {
            Visit::Finalize => misplaced_releases(released(visits.drop_last())),
            _ => release_order_findings(visits.drop_last()),
        }
    }
}

/// How the text `left` stands to the text `right`, byte for byte.
fn compare_text(left: &str, right: &str) -> (order: DateOrder)
    ensures
        order == bytes_order(left.spec_bytes(), right.spec_bytes(), 0),
{
    let a = left.as_bytes();
    let b = right.as_bytes();
    let mut index: usize = 0;
    while index < a.len() && index < b.len()
        invariant
            a@ == left.spec_bytes(),
            b@ == right.spec_bytes(),
            index <= a@.len(),
            index <= b@.len(),
            bytes_order(a@, b@, 0) == bytes_order(a@, b@, index as int),
        decreases a@.len() - index,
    {
        if a[index] < b[index] {
            return DateOrder::Earlier;
        }
        if a[index] > b[index] {
            return DateOrder::Later;
        }
        index += 1;
    }
    if index < b.len() {
        DateOrder::Earlier
    } else if index < a.len() {
        DateOrder::Later
    } else {
        DateOrder::Same
    }
}

/// Whether the release `current` may not stand right behind the release
/// `previous`.
fn is_out_of_order(previous: &ReleaseInfo, current: &ReleaseInfo) -> (wrong: bool)
    ensures
        wrong == out_of_order(previous@, current@),
{
    match compare_versions(current.version.as_str(), previous.version.as_str()) {
        Some(versions) => {
            let dates = match &current.date {
                Some(date) => match &previous.date {
                    Some(before) => compare_text(date.as_str(), before.as_str()),
                    None => DateOrder::Later,
                },
                None => match &previous.date {
                    Some(_) => DateOrder::Earlier,
                    None => DateOrder::Same,
                },
            };
            match dates {
                DateOrder::Earlier => false,
                DateOrder::Same => match versions {
                    Comparison::Greater => true,
                    _ => false,
                },
                DateOrder::Later => true,
            }
        },
        None => false,
    }
}

/// Checks that the releases stand in the order of their dates, the latest
/// first, and releases of one date in the order of their versions, the greatest
/// first.
///
/// Each release is held against the one right before it, and against no other.
pub struct InvalidReleaseOrder {
    spans: Vec<Option<Span>>,
    info: Vec<ReleaseInfo>,
    visits: Ghost<Seq<Visit>>,
}

impl Default for InvalidReleaseOrder {
    fn default() -> (check: InvalidReleaseOrder)
        ensures
            check.wf(),
            check.seen() == Seq::<Visit>::empty(),
    {
        let check = InvalidReleaseOrder {
            spans: Vec::new(),
            info: Vec::new(),
            visits: Ghost(Seq::empty()),
        };
        assert(info_views(check.info@) =~= Seq::empty());
        assert(release_infos(released(check.visits@)) =~= Seq::empty());
        check
    }
}

impl Check for InvalidReleaseOrder {
    closed spec fn wf(&self) -> bool {
        &&& self.spans@ == release_order_findings(self.visits@)
        &&& info_views(self.info@) == release_infos(released(self.visits@))
    }

    closed spec fn seen(&self) -> Seq<Visit> {
        self.visits@
    }

    open spec fn spec_rule() -> Rule {
        Rule::InvalidReleaseOrder
    }

    /// At the end of the walk, the heading of each release that may not stand
    /// right behind the release before it.
    open spec fn findings(visits: Seq<Visit>) -> Seq<Option<Span>> {
        release_order_findings(visits)
    }

    fn rule(&self) -> (rule: Rule) {
        Rule::InvalidReleaseOrder
    }

    fn visit_changelog(&mut self, changelog: &ParsedChangelog) {
        proof {
            assert(self.visits@.push(Visit::Changelog(changelog@)).drop_last() =~= self.visits@);
        }
        self.visits = Ghost(self.visits@.push(Visit::Changelog(changelog@)));
    }

    fn visit_unreleased(&mut self, unreleased: &ParsedUnreleased) {
        proof {
            assert(self.visits@.push(Visit::Unreleased(unreleased@)).drop_last() =~= self.visits@);
        }
        self.visits = Ghost(self.visits@.push(Visit::Unreleased(unreleased@)));
    }

    fn visit_release(&mut self, release: &ParsedRelease) {
        proof {
            assert(self.visits@.push(Visit::Release(release@)).drop_last() =~= self.visits@);
        }
        let date = match &release.date {
            Some(date) => Some(date.value.to_owned()),
            None => None,
        };
        let info = ReleaseInfo {
            span: release.heading_span,
            version: release.version.value.to_owned(),
            date,
        };
        let ghost before = info_views(self.info@);
        self.info.push(info);
        assert(info_views(self.info@) =~= before.push(info@));
        assert(release_infos(released(old(self).visits@).push(release@)) =~= before.push(
            info_of(release@),
        ));
        self.visits = Ghost(self.visits@.push(Visit::Release(release@)));
    }

    fn visit_changes(&mut self, changes: &ParsedChanges) {
        proof {
            assert(self.visits@.push(Visit::Changes(changes@)).drop_last() =~= self.visits@);
        }
        self.visits = Ghost(self.visits@.push(Visit::Changes(changes@)));
    }

    fn visit_invalid_span(&mut self, span: &InvalidSpan) {
        proof {
            assert(self.visits@.push(Visit::Invalid(*span)).drop_last() =~= self.visits@);
        }
        self.visits = Ghost(self.visits@.push(Visit::Invalid(*span)));
    }

    fn finalize(&mut self) {
        proof {
            assert(self.visits@.push(Visit::Finalize).drop_last() =~= self.visits@);
        }
        let ghost releases = info_views(self.info@);
        let mut spans: Vec<Option<Span>> = Vec::new();
        let mut index: usize = 1;
        while index < self.info.len()
            invariant
                *self == *old(self),
                old(self).wf(),
                releases == info_views(self.info@),
                1 <= index,
                index <= self.info@.len() || index == 1,
                spans@ == order_violations(releases, index as int),
            decreases self.info@.len() - index,
        {
            if is_out_of_order(&self.info[index - 1], &self.info[index]) {
                spans.push(Some(self.info[index].span));
            }
            index += 1;
        }
        assert(release_infos(released(self.visits@)).len() == released(self.visits@).len());
        self.spans = spans;
        self.visits = Ghost(self.visits@.push(Visit::Finalize));
    }

    fn locations(&self) -> (found: Vec<Option<Span>>) {
        copied(&self.spans)
    }
}

} // verus!
