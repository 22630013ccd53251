//! A changelog put together from a sequence of sections: the texts are
//! borrowed, and each element knows the span that it came from.
use vstd::prelude::*;

use super::owned;
use crate::changelog::owned::{
    OwnedChangelogView, OwnedReleaseView, OwnedUnreleasedView,
};
use crate::changelog::parsed::{
    option_owned, option_value, owned_changes, text_option_view, text_views, ChangesView, Text,
};
use crate::changelog::traits;
use crate::ir;
use crate::span::{Span, Spanned};
use crate::text::str_eq;

verus! {

/// A changelog.
#[derive(Debug, PartialEq)]
pub struct Changelog<'a> {
    pub title: Option<Spanned<&'a str>>,
    pub unreleased: Option<Unreleased<'a>>,
    pub releases: Vec<Release<'a>>,
    pub invalid_spans: Vec<InvalidSpan>,
}

/// The unreleased section of a changelog.
#[derive(Debug, PartialEq)]
pub struct Unreleased<'a> {
    pub heading_span: Span,
    pub url: Option<Spanned<&'a str>>,
    pub changes: Vec<Changes<'a>>,
}

/// A release section of a changelog.
#[derive(Debug, PartialEq)]
pub struct Release<'a> {
    pub heading_span: Span,
    pub version: Spanned<&'a str>,
    pub url: Option<Spanned<&'a str>>,
    pub date: Option<Spanned<&'a str>>,
    pub yanked: Option<Spanned<&'a str>>,
    pub changes: Vec<Changes<'a>>,
}

/// A group of changes of one type.
#[derive(Debug, PartialEq)]
pub struct Changes<'a> {
    pub heading_span: Span,
    pub kind: Spanned<&'a str>,
    pub items: Vec<Spanned<&'a str>>,
}

/// A place where the document does not fit the format.
#[derive(Copy, Clone, Debug, PartialEq, Eq, Structural)]
pub enum InvalidSpan {
    InvalidTitle(Span),
    InvalidHeading(Span),
    InvalidLinkReference(Span),
    DuplicateUnreleased(Span),
}

/// What an [`Unreleased`] holds.
#[verifier::ext_equal]
pub struct UnreleasedView {
    pub heading_span: Span,
    pub url: Option<Text>,
    pub changes: Seq<ChangesView>,
}

/// What a [`Release`] holds.
#[verifier::ext_equal]
pub struct ReleaseView {
    pub heading_span: Span,
    pub version: Text,
    pub url: Option<Text>,
    pub date: Option<Text>,
    pub yanked: Option<Text>,
    pub changes: Seq<ChangesView>,
}

/// What a [`Changelog`] holds.
#[verifier::ext_equal]
pub struct ChangelogView {
    pub title: Option<Text>,
    pub unreleased: Option<UnreleasedView>,
    pub releases: Seq<ReleaseView>,
    pub invalid_spans: Seq<InvalidSpan>,
}

/// The views of a sequence of groups of changes.
pub open spec fn changes_views(changes: Seq<Changes>) -> Seq<ChangesView> {
    changes.map_values(|group: Changes| group@)
}

/// The views of a sequence of releases.
pub open spec fn release_views(releases: Seq<Release>) -> Seq<ReleaseView> {
    releases.map_values(|release: Release| release@)
}

impl<'a> View for Changes<'a> {
    type V = ChangesView;

    open spec fn view(&self) -> ChangesView {
        ChangesView {
            heading_span: self.heading_span,
            kind: self.kind@,
            items: text_views(self.items@),
        }
    }
}

impl<'a> View for Unreleased<'a> {
    type V = UnreleasedView;

    open spec fn view(&self) -> UnreleasedView {
        UnreleasedView {
            heading_span: self.heading_span,
            url: text_option_view(self.url),
            changes: changes_views(self.changes@),
        }
    }
}

impl<'a> View for Release<'a> {
    type V = ReleaseView;

    open spec fn view(&self) -> ReleaseView {
        ReleaseView {
            heading_span: self.heading_span,
            version: self.version@,
            url: text_option_view(self.url),
            date: text_option_view(self.date),
            yanked: text_option_view(self.yanked),
            changes: changes_views(self.changes@),
        }
    }
}

impl<'a> View for Changelog<'a> {
    type V = ChangelogView;

    open spec fn view(&self) -> ChangelogView {
        ChangelogView {
            title: text_option_view(self.title),
            unreleased: match self.unreleased {
                Some(unreleased) => Some(unreleased@),
                None => None,
            },
            releases: release_views(self.releases@),
            invalid_spans: self.invalid_spans@,
        }
    }
}

/// The value of a text that may be missing.
pub open spec fn option_text_value(text: Option<Text>) -> Option<Seq<char>> {
    match text {
        Some(text) => Some(text.value),
        None => None,
    }
}

/// A link as a text: no span is known for it.
pub open spec fn url_text(url: Option<Seq<char>>) -> Option<Text> {
    match url {
        Some(value) => Some(Text { span: Span { start: 0, end: 0 }, value }),
        None => None,
    }
}

impl UnreleasedView {
    /// The section of a sequence of sections, as a section of a changelog.
    pub open spec fn of(section: crate::changelog::parsed::UnreleasedView) -> UnreleasedView {
        UnreleasedView {
            heading_span: section.heading_span,
            url: url_text(section.url),
            changes: section.changes,
        }
    }

    /// The section without its spans.
    pub open spec fn owned(self) -> OwnedUnreleasedView {
        OwnedUnreleasedView {
            url: option_text_value(self.url),
            changes: owned_changes(self.changes),
        }
    }
}

impl ReleaseView {
    /// The release of a sequence of sections, as a release of a changelog.
    pub open spec fn of(release: crate::changelog::parsed::ReleaseView) -> ReleaseView {
        ReleaseView {
            heading_span: release.heading_span,
            version: release.version,
            url: url_text(release.url),
            date: release.date,
            yanked: release.yanked,
            changes: release.changes,
        }
    }

    /// Whether the release is marked as yanked: its marker is `[YANKED]`.
    pub open spec fn is_yanked(self) -> bool {
        self.yanked matches Some(marker) && marker.value == "[YANKED]"@
    }

    /// The release without its spans.
    pub open spec fn owned(self) -> OwnedReleaseView {
        OwnedReleaseView {
            version: self.version.value,
            url: option_text_value(self.url),
            date: option_text_value(self.date),
            yanked: self.is_yanked(),
            changes: owned_changes(self.changes),
        }
    }
}

impl ChangelogView {
    /// The changelog `self` behind one more section. The first title and the
    /// first unreleased section are kept; a later title is dropped and a
    /// later unreleased section is noted as a duplicate.
    pub open spec fn with_section(self, section: ir::SectionView) -> ChangelogView {
        match section {
            ir::SectionView::Title(title) => ChangelogView {
                title: if self.title is None {
                    Some(title)
                } else {
                    self.title
                },
                unreleased: self.unreleased,
                releases: self.releases,
                invalid_spans: self.invalid_spans,
            },
            ir::SectionView::Unreleased(unreleased) => if self.unreleased is Some {
                self.with_invalid(InvalidSpan::DuplicateUnreleased(unreleased.heading_span))
            } else {
                ChangelogView {
                    title: self.title,
                    unreleased: Some(UnreleasedView::of(unreleased)),
                    releases: self.releases,
                    invalid_spans: self.invalid_spans,
                }
            },
            ir::SectionView::Release(release) => ChangelogView {
                title: self.title,
                unreleased: self.unreleased,
                releases: self.releases.push(ReleaseView::of(release)),
                invalid_spans: self.invalid_spans,
            },
            ir::SectionView::Invalid(invalid) => self.with_invalid(
                InvalidSpan::InvalidHeading(invalid.heading_span),
            ),
            ir::SectionView::InvalidTitle(invalid) => self.with_invalid(
                InvalidSpan::InvalidTitle(invalid.heading_span),
            ),
        }
    }

    /// The changelog `self` with one more invalid span.
    pub open spec fn with_invalid(self, invalid: InvalidSpan) -> ChangelogView {
        ChangelogView {
            title: self.title,
            unreleased: self.unreleased,
            releases: self.releases,
            invalid_spans: self.invalid_spans.push(invalid),
        }
    }

    /// The changelog that the first `count` of `sections` make up.
    pub open spec fn of_sections(sections: Seq<ir::SectionView>, count: int) -> ChangelogView
        decreases count,
    {
        if count <= 0 {
            ChangelogView {
                title: None,
                unreleased: None,
                releases: Seq::empty(),
                invalid_spans: Seq::empty(),
            }
        } else {
            Self::of_sections(sections, count - 1).with_section(sections[count - 1])
        }
    }

    /// The changelog that a sequence of sections makes up: what its sections
    /// make up, and behind the invalid spans of those its broken link
    /// references.
    pub open spec fn of(changelog: ir::ChangelogView) -> ChangelogView {
        let made = Self::of_sections(changelog.sections, changelog.sections.len() as int);
        ChangelogView {
            title: made.title,
            unreleased: made.unreleased,
            releases: made.releases,
            invalid_spans: made.invalid_spans + changelog.broken_links.map_values(
                |span: Span| InvalidSpan::InvalidLinkReference(span),
            ),
        }
    }

    /// The changelog without its spans and without what is invalid in it.
    pub open spec fn owned(self) -> OwnedChangelogView {
        OwnedChangelogView {
            title: option_text_value(self.title),
            unreleased: match self.unreleased {
                Some(unreleased) => Some(unreleased.owned()),
                None => None,
            },
            releases: self.releases.map_values(|release: ReleaseView| release.owned()),
        }
    }
}

/// A link as a spanned text: no span is known for it.
fn spanned_url<'a>(url: &'a Option<String>) -> (text: Option<Spanned<&'a str>>)
    ensures
        text_option_view(text) == url_text(crate::changelog::parsed::string_option_view(*url)),
{
    match url {
        Some(url) => Some(Spanned { span: Span { start: 0, end: 0 }, value: url.as_str() }),
        None => None,
    }
}

/// Copies of the groups of changes of a section.
fn changes_from<'a>(changes: &'a Vec<ir::Changes<'a>>) -> (copies: Vec<Changes<'a>>)
    ensures
        changes_views(copies@) == ir::changes_views(changes@),
{
    let mut copies: Vec<Changes<'a>> = Vec::new();
    let mut index: usize = 0;
    while index < changes.len()
        invariant
            index <= changes@.len(),
            copies@.len() == index,
            forall|i: int| 0 <= i < index ==> (#[trigger] copies@[i])@ == changes@[i]@,
        decreases changes@.len() - index,
    {
        copies.push(Changes::from(&changes[index]));
        index += 1;
    }
    assert(changes_views(copies@) =~= ir::changes_views(changes@));
    copies
}

/// Copies of the groups of changes that own their texts.
fn changes_to_owned(changes: &Vec<Changes>) -> (owned: Vec<owned::Changes>)
    ensures
        owned::changes_views(owned@) == owned_changes(changes_views(changes@)),
{
    let mut owned: Vec<owned::Changes> = Vec::new();
    let mut index: usize = 0;
    while index < changes.len()
        invariant
            index <= changes@.len(),
            owned@.len() == index,
            forall|i: int| 0 <= i < index ==> (#[trigger] owned@[i])@ == changes@[i]@.owned(),
        decreases changes@.len() - index,
    {
        owned.push(changes[index].to_owned());
        index += 1;
    }
    assert(owned::changes_views(owned@) =~= owned_changes(changes_views(changes@)));
    owned
}

impl<'a> Changes<'a> {
    /// The group of a sequence of sections, as a group of a changelog.
    pub fn from(group: &'a ir::Changes<'a>) -> (changes: Changes<'a>)
        ensures
            changes@ == group@,
    {
        let mut items: Vec<Spanned<&'a str>> = Vec::new();
        let mut index: usize = 0;
        while index < group.changes.len()
            invariant
                index <= group.changes@.len(),
                items@ == group.changes@.take(index as int),
            decreases group.changes@.len() - index,
        {
            let item = &group.changes[index];
            items.push(Spanned { span: item.span, value: item.value });
            assert(items@ =~= group.changes@.take(index + 1));
            index += 1;
        }
        assert(group.changes@.take(group.changes@.len() as int) =~= group.changes@);
        Changes {
            heading_span: group.heading_span,
            kind: Spanned { span: group.kind.span, value: group.kind.value },
            items,
        }
    }

    /// A copy of the group that owns its texts.
    pub fn to_owned(&self) -> (owned: owned::Changes)
        ensures
            owned@ == self@.owned(),
    {
        let mut items: Vec<String> = Vec::new();
        let mut index: usize = 0;
        while index < self.items.len()
            invariant
                index <= self.items@.len(),
                items@.len() == index,
                forall|i: int| 0 <= i < index ==> (#[trigger] items@[i])@ == self.items@[i].value@,
            decreases self.items@.len() - index,
        {
            items.push(self.items[index].value.to_owned());
            index += 1;
        }
        let owned = owned::Changes { kind: self.kind.value.to_owned(), items };
        assert(owned@.items =~= self@.owned().items);
        owned
    }
}

impl<'a> Unreleased<'a> {
    /// The section of a sequence of sections, as a section of a changelog.
    pub fn from(section: &'a ir::Unreleased<'a>) -> (unreleased: Unreleased<'a>)
        ensures
            unreleased@ == UnreleasedView::of(section@),
    {
        Unreleased {
            heading_span: section.heading_span,
            url: spanned_url(&section.url),
            changes: changes_from(&section.changes),
        }
    }

    /// A copy of the section that owns its texts.
    pub fn to_owned(&self) -> (owned: owned::Unreleased)
        ensures
            owned@ == self@.owned(),
    {
        owned::Unreleased {
            url: option_owned(option_value(&self.url)),
            changes: changes_to_owned(&self.changes),
        }
    }
}

impl<'a> Release<'a> {
    /// The release of a sequence of sections, as a release of a changelog.
    pub fn from(release: &'a ir::Release<'a>) -> (copy: Release<'a>)
        ensures
            copy@ == ReleaseView::of(release@),
    {
        let version = Spanned { span: release.version.span, value: release.version.value };
        let url = spanned_url(&release.url);
        let date = match &release.date {
            Some(date) => Some(Spanned { span: date.span, value: date.value }),
            None => None,
        };
        let yanked = match &release.yanked {
            Some(yanked) => Some(Spanned { span: yanked.span, value: yanked.value }),
            None => None,
        };
        let changes = changes_from(&release.changes);
        Release { heading_span: release.heading_span, version, url, date, yanked, changes }
    }

    /// A copy of the release that owns its texts.
    pub fn to_owned(&self) -> (owned: owned::Release)
        ensures
            owned@ == self@.owned(),
    {
        owned::Release {
            version: self.version.value.to_owned(),
            url: option_owned(option_value(&self.url)),
            date: option_owned(option_value(&self.date)),
            yanked: traits::Release::yanked(self),
            changes: changes_to_owned(&self.changes),
        }
    }
}

impl<'a> Changelog<'a> {
    /// The changelog that a sequence of sections makes up.
    pub fn from(sections: &'a ir::Changelog<'a>) -> (changelog: Changelog<'a>)
        ensures
            changelog@ == ChangelogView::of(sections@),
    {
        let ghost all = sections@.sections;
        let mut title: Option<Spanned<&'a str>> = None;
        let mut unreleased: Option<Unreleased<'a>> = None;
        let mut releases: Vec<Release<'a>> = Vec::new();
        let mut invalid_spans: Vec<InvalidSpan> = Vec::new();
        let mut index: usize = 0;
        assert(release_views(releases@) =~= Seq::empty());
        while index < sections.sections.len()
            invariant
                all == sections@.sections,
                index <= sections.sections@.len(),
                ChangelogView::of_sections(all, index as int) == (ChangelogView {
                    title: text_option_view(title),
                    unreleased: match unreleased {
                        Some(unreleased) => Some(unreleased@),
                        None => None,
                    },
                    releases: release_views(releases@),
                    invalid_spans: invalid_spans@,
                }),
            decreases sections.sections@.len() - index,
        {
            assert(all[index as int] == sections.sections@[index as int]@);
            match &sections.sections[index] {
                ir::Section::Title(found) => {
                    if title.is_none() {
                        title = Some(Spanned { span: found.span, value: found.value });
                    }
                },
                ir::Section::Unreleased(found) => {
                    if unreleased.is_some() {
                        invalid_spans.push(InvalidSpan::DuplicateUnreleased(found.heading_span));
                    } else {
                        unreleased = Some(Unreleased::from(found));
                    }
                },
                ir::Section::Release(found) => {
                    let ghost before = release_views(releases@);
                    let release = Release::from(found);
                    releases.push(release);
                    assert(release_views(releases@) =~= before.push(release@));
                },
                ir::Section::Invalid(found) => {
                    invalid_spans.push(InvalidSpan::InvalidHeading(found.heading_span));
                },
                ir::Section::InvalidTitle(found) => {
                    invalid_spans.push(InvalidSpan::InvalidTitle(found.heading_span));
                },
            }
            index += 1;
        }
        let ghost made = invalid_spans@;
        let mut link: usize = 0;
        while link < sections.broken_links.len()
            invariant
                link <= sections.broken_links@.len(),
                invalid_spans@ == made + sections.broken_links@.take(link as int).map_values(
                    |span: Span| InvalidSpan::InvalidLinkReference(span),
                ),
            decreases sections.broken_links@.len() - link,
        {
            invalid_spans.push(InvalidSpan::InvalidLinkReference(sections.broken_links[link]));
            assert(invalid_spans@ =~= made + sections.broken_links@.take(link + 1).map_values(
                |span: Span| InvalidSpan::InvalidLinkReference(span),
            ));
            link += 1;
        }
        assert(sections.broken_links@.take(sections.broken_links@.len() as int)
            =~= sections.broken_links@);
        Changelog { title, unreleased, releases, invalid_spans }
    }

    /// A copy of the changelog that owns its texts. What is invalid in the
    /// changelog is not part of the copy.
    pub fn to_owned(&self) -> (owned: owned::Changelog)
        ensures
            owned@ == self@.owned(),
    {
        let mut releases: Vec<owned::Release> = Vec::new();
        let mut index: usize = 0;
        while index < self.releases.len()
            invariant
                index <= self.releases@.len(),
                releases@.len() == index,
                forall|i: int|
                    0 <= i < index ==> (#[trigger] releases@[i])@ == self.releases@[i]@.owned(),
            decreases self.releases@.len() - index,
        {
            releases.push(self.releases[index].to_owned());
            index += 1;
        }
        let unreleased = match &self.unreleased {
            Some(unreleased) => Some(unreleased.to_owned()),
            None => None,
        };
        let owned = owned::Changelog {
            title: option_owned(option_value(&self.title)),
            unreleased,
            releases,
        };
        assert(owned@.releases =~= self@.owned().releases);
        owned
    }
}

impl<'a> traits::Changelog for Changelog<'a> {
    type Unreleased = Unreleased<'a>;

    type Release = Release<'a>;

    open spec fn spec_title(&self) -> Option<Seq<char>> {
        match self.title {
            Some(title) => Some(title.value@),
            None => None,
        }
    }

    open spec fn spec_unreleased(&self) -> Option<Unreleased<'a>> {
        self.unreleased
    }

    open spec fn spec_releases(&self) -> Seq<Release<'a>> {
        self.releases@
    }

    fn title(&self) -> (title: Option<&str>)
        ensures
            title is Some <==> self.title is Some,
            title matches Some(found) ==> found == self.title->0.value,
    {
        option_value(&self.title)
    }

    fn unreleased(&self) -> (unreleased: Option<&Unreleased<'a>>)
        ensures
            unreleased is Some <==> self.unreleased is Some,
            unreleased matches Some(found) ==> *found == self.unreleased->0,
    {
        self.unreleased.as_ref()
    }

    fn releases(&self) -> (releases: &[Release<'a>])
        ensures
            releases@ == self.releases@,
    {
        self.releases.as_slice()
    }
}

impl<'a> traits::Unreleased for Unreleased<'a> {
    type Changes = Changes<'a>;

    open spec fn spec_url(&self) -> Option<Seq<char>> {
        match self.url {
            Some(url) => Some(url.value@),
            None => None,
        }
    }

    open spec fn spec_changes(&self) -> Seq<Changes<'a>> {
        self.changes@
    }

    fn url(&self) -> (url: Option<&str>)
        ensures
            url is Some <==> self.url is Some,
            url matches Some(found) ==> found == self.url->0.value,
    {
        option_value(&self.url)
    }

    fn changes(&self) -> (changes: &[Changes<'a>])
        ensures
            changes@ == self.changes@,
    {
        self.changes.as_slice()
    }
}

impl<'a> traits::Release for Release<'a> {
    type Changes = Changes<'a>;

    open spec fn spec_version(&self) -> Seq<char> {
        self.version.value@
    }

    open spec fn spec_url(&self) -> Option<Seq<char>> {
        match self.url {
            Some(url) => Some(url.value@),
            None => None,
        }
    }

    open spec fn spec_date(&self) -> Option<Seq<char>> {
        match self.date {
            Some(date) => Some(date.value@),
            None => None,
        }
    }

    open spec fn spec_yanked(&self) -> bool {
        self@.is_yanked()
    }

    open spec fn spec_changes(&self) -> Seq<Changes<'a>> {
        self.changes@
    }

    fn version(&self) -> (version: &str)
        ensures
            version == self.version.value,
    {
        self.version.value
    }

    fn url(&self) -> (url: Option<&str>)
        ensures
            url is Some <==> self.url is Some,
            url matches Some(found) ==> found == self.url->0.value,
    {
        option_value(&self.url)
    }

    fn date(&self) -> (date: Option<&str>)
        ensures
            date is Some <==> self.date is Some,
            date matches Some(found) ==> found == self.date->0.value,
    {
        option_value(&self.date)
    }

    fn yanked(&self) -> (yanked: bool)
        ensures
            yanked == self@.is_yanked(),
    {
        match &self.yanked {
            Some(marker) => str_eq(marker.value, "[YANKED]"),
            None => false,
        }
    }

    fn changes(&self) -> (changes: &[Changes<'a>])
        ensures
            changes@ == self.changes@,
    {
        self.changes.as_slice()
    }
}

impl<'a> traits::Changes for Changes<'a> {
    open spec fn spec_kind(&self) -> Seq<char> {
        self.kind.value@
    }

    open spec fn spec_items(&self) -> Seq<Seq<char>> {
        self.items@.map_values(|item: Spanned<&str>| item.value@)
    }

    fn kind(&self) -> (kind: &str)
        ensures
            kind == self.kind.value,
    {
        self.kind.value
    }

    fn items(&self) -> (items: Vec<&str>)
        ensures
            items@.len() == self.items@.len(),
            forall|i: int| 0 <= i < items@.len() ==> (#[trigger] items@[i]) == self.items@[i].value,
    {
        let mut items: Vec<&str> = Vec::new();
        let mut index: usize = 0;
        while index < self.items.len()
            invariant
                index <= self.items@.len(),
                items@.len() == index,
                forall|i: int| 0 <= i < index ==> (#[trigger] items@[i]) == self.items@[i].value,
            decreases self.items@.len() - index,
        {
            items.push(self.items[index].value);
            index += 1;
        }
        items
    }
}

} // verus!
