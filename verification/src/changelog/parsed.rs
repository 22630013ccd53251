//! A changelog as it was parsed: the texts are borrowed from the source, and
//! each element knows the span that it came from.
use vstd::prelude::*;
use vstd::string::StringSliceAdditionalSpecFns;
use vstd::utf8::*;

use super::owned::{
    owned_changes_views, texts, OwnedChangelog, OwnedChangelogView,
    OwnedChanges, OwnedChangesView, OwnedRelease, OwnedReleaseView, OwnedUnreleased,
    OwnedUnreleasedView,
};
use super::traits;
use crate::diagnostic::Diagnostic;
use crate::markdown::{markdown_broken_links, markdown_tokens};
use crate::parser::parsed;
use crate::span::{is_line_index, is_point_in, Locator, Position, Span, Spanned};
use crate::text::{sliceable, str_eq};

verus! {

/// A text and the span that it was found at.
#[verifier::ext_equal]
pub struct Text {
    pub span: Span,
    pub value: Seq<char>,
}

impl<'a> View for Spanned<&'a str> {
    type V = Text;

    open spec fn view(&self) -> Text {
        Text { span: self.span, value: self.value@ }
    }
}

impl Text {
    /// Whether the text is what its span covers in a source encoded as `bytes`.
    pub open spec fn is_from(self, bytes: Seq<u8>) -> bool {
        sliceable(bytes, self.span) && encode_utf8(self.value) == self.span.of(bytes)
    }
}

/// The views of a sequence of spanned texts.
pub open spec fn text_views(texts: Seq<Spanned<&str>>) -> Seq<Text> {
    texts.map_values(|text: Spanned<&str>| text@)
}

/// A place where the document does not fit the format.
#[derive(Copy, Clone, Debug, PartialEq, Eq, Structural)]
pub enum InvalidSpan {
    /// A title that is more than plain text.
    InvalidTitle(Span),
    /// A second-level heading that starts neither a release nor the
    /// unreleased section.
    InvalidSectionHeading(Span),
    /// A link to a label that the document does not define.
    UndefinedLinkReference(Span),
    /// An unreleased section behind the first one.
    DuplicateUnreleased(Span),
    /// A title behind the first one.
    DuplicateTitle(Span),
    /// An unreleased section behind a release.
    InvalidUnreleasedPosition(Span),
}

/// A parsed changelog.
#[derive(Debug, PartialEq)]
pub struct ParsedChangelog<'a> {
    pub source: &'a str,
    pub title: Option<Spanned<&'a str>>,
    pub unreleased: Option<ParsedUnreleased<'a>>,
    pub releases: Vec<ParsedRelease<'a>>,
    pub invalid_spans: Vec<InvalidSpan>,
}

/// The unreleased section of a parsed changelog.
#[derive(Debug, PartialEq)]
pub struct ParsedUnreleased<'a> {
    pub heading_span: Span,
    pub url: Option<String>,
    pub changes: Vec<ParsedChanges<'a>>,
}

/// A release section of a parsed changelog.
#[derive(Debug, PartialEq)]
pub struct ParsedRelease<'a> {
    pub heading_span: Span,
    pub version: Spanned<&'a str>,
    pub url: Option<String>,
    pub date: Option<Spanned<&'a str>>,
    pub yanked: Option<Spanned<&'a str>>,
    pub changes: Vec<ParsedChanges<'a>>,
}

/// A group of changes of one type in a parsed changelog.
#[derive(Debug, PartialEq)]
pub struct ParsedChanges<'a> {
    pub heading_span: Span,
    pub kind: Spanned<&'a str>,
    pub items: Vec<Spanned<&'a str>>,
}

/// What a [`ParsedChanges`] holds.
#[verifier::ext_equal]
pub struct ChangesView {
    pub heading_span: Span,
    pub kind: Text,
    pub items: Seq<Text>,
}

/// What a [`ParsedUnreleased`] holds.
#[verifier::ext_equal]
pub struct UnreleasedView {
    pub heading_span: Span,
    pub url: Option<Seq<char>>,
    pub changes: Seq<ChangesView>,
}

/// What a [`ParsedRelease`] holds.
#[verifier::ext_equal]
pub struct ReleaseView {
    pub heading_span: Span,
    pub version: Text,
    pub url: Option<Seq<char>>,
    pub date: Option<Text>,
    pub yanked: Option<Text>,
    pub changes: Seq<ChangesView>,
}

/// What a [`ParsedChangelog`] holds.
#[verifier::ext_equal]
pub struct ChangelogView {
    pub source: Seq<char>,
    pub title: Option<Text>,
    pub unreleased: Option<UnreleasedView>,
    pub releases: Seq<ReleaseView>,
    pub invalid_spans: Seq<InvalidSpan>,
}

/// The view of a spanned text that may be missing.
pub open spec fn text_option_view(text: Option<Spanned<&str>>) -> Option<Text> {
    match text {
        Some(text) => Some(text@),
        None => None,
    }
}

/// The view of a string that may be missing.
pub open spec fn string_option_view(string: Option<String>) -> Option<Seq<char>> {
    match string {
        Some(string) => Some(string@),
        None => None,
    }
}

/// The views of a sequence of groups of changes.
pub open spec fn changes_views(changes: Seq<ParsedChanges>) -> Seq<ChangesView> {
    changes.map_values(|group: ParsedChanges| group@)
}

/// The views of a sequence of releases.
pub open spec fn release_views(releases: Seq<ParsedRelease>) -> Seq<ReleaseView> {
    releases.map_values(|release: ParsedRelease| release@)
}

impl<'a> View for ParsedChanges<'a> {
    type V = ChangesView;

    open spec fn view(&self) -> ChangesView {
        ChangesView {
            heading_span: self.heading_span,
            kind: self.kind@,
            items: text_views(self.items@),
        }
    }
}

impl<'a> View for ParsedUnreleased<'a> {
    type V = UnreleasedView;

    open spec fn view(&self) -> UnreleasedView {
        UnreleasedView {
            heading_span: self.heading_span,
            url: string_option_view(self.url),
            changes: changes_views(self.changes@),
        }
    }
}

impl<'a> View for ParsedRelease<'a> {
    type V = ReleaseView;

    open spec fn view(&self) -> ReleaseView {
        ReleaseView {
            heading_span: self.heading_span,
            version: self.version@,
            url: string_option_view(self.url),
            date: text_option_view(self.date),
            yanked: text_option_view(self.yanked),
            changes: changes_views(self.changes@),
        }
    }
}

impl<'a> View for ParsedChangelog<'a> {
    type V = ChangelogView;

    open spec fn view(&self) -> ChangelogView {
        ChangelogView {
            source: self.source@,
            title: text_option_view(self.title),
            unreleased: match self.unreleased {
                Some(unreleased) => Some(unreleased@),
                None => None,
            },
            releases: release_views(self.releases@),
            invalid_spans: self.invalid_spans@,
        }
    }
}

impl ChangesView {
    /// Whether every text of the group is what its span covers in the source.
    pub open spec fn is_from(self, bytes: Seq<u8>) -> bool {
        &&& self.kind.is_from(bytes)
        &&& forall|i: int| 0 <= i < self.items.len() ==> (#[trigger] self.items[i]).is_from(bytes)
    }
}

impl UnreleasedView {
    /// Whether every text of the section is what its span covers in the source.
    pub open spec fn is_from(self, bytes: Seq<u8>) -> bool {
        forall|i: int| 0 <= i < self.changes.len() ==> (#[trigger] self.changes[i]).is_from(bytes)
    }
}

impl ReleaseView {
    /// Whether every text of the release is what its span covers in the source.
    pub open spec fn is_from(self, bytes: Seq<u8>) -> bool {
        &&& self.version.is_from(bytes)
        &&& self.date matches Some(date) ==> date.is_from(bytes)
        &&& self.yanked matches Some(yanked) ==> yanked.is_from(bytes)
        &&& forall|i: int|
            0 <= i < self.changes.len() ==> (#[trigger] self.changes[i]).is_from(bytes)
    }
}

impl ChangelogView {
    /// Whether every text of the changelog is what its span covers in the
    /// source that the changelog names.
    pub open spec fn is_faithful(self) -> bool {
        let bytes = encode_utf8(self.source);
        &&& self.title matches Some(title) ==> title.is_from(bytes)
        &&& self.unreleased matches Some(unreleased) ==> unreleased.is_from(bytes)
        &&& forall|i: int|
            0 <= i < self.releases.len() ==> (#[trigger] self.releases[i]).is_from(bytes)
    }
}

impl<'a> Default for ParsedChanges<'a> {
    fn default() -> (changes: ParsedChanges<'a>)
        ensures
            changes.heading_span == (Span { start: 0, end: 0 }),
            changes.kind.span == (Span { start: 0, end: 0 }),
            changes.kind.value@.len() == 0,
            changes.items@.len() == 0,
    {
        proof {
            reveal_strlit("");
        }
        ParsedChanges {
            heading_span: Span::default(),
            kind: Spanned { span: Span::default(), value: "" },
            items: Vec::new(),
        }
    }
}

impl<'a> Default for ParsedUnreleased<'a> {
    fn default() -> (unreleased: ParsedUnreleased<'a>)
        ensures
            unreleased.heading_span == (Span { start: 0, end: 0 }),
            unreleased.url is None,
            unreleased.changes@.len() == 0,
    {
        ParsedUnreleased { heading_span: Span::default(), url: None, changes: Vec::new() }
    }
}

impl<'a> Default for ParsedRelease<'a> {
    fn default() -> (release: ParsedRelease<'a>)
        ensures
            release.heading_span == (Span { start: 0, end: 0 }),
            release.version.span == (Span { start: 0, end: 0 }),
            release.version.value@.len() == 0,
            release.url is None,
            release.date is None,
            release.yanked is None,
            release.changes@.len() == 0,
    {
        proof {
            reveal_strlit("");
        }
        ParsedRelease {
            heading_span: Span::default(),
            version: Spanned { span: Span::default(), value: "" },
            url: None,
            date: None,
            yanked: None,
            changes: Vec::new(),
        }
    }
}

impl<'a> Default for ParsedChangelog<'a> {
    fn default() -> (changelog: ParsedChangelog<'a>)
        ensures
            changelog.source@.len() == 0,
            changelog.title is None,
            changelog.unreleased is None,
            changelog.releases@.len() == 0,
            changelog.invalid_spans@.len() == 0,
    {
        proof {
            reveal_strlit("");
        }
        ParsedChangelog {
            source: "",
            title: None,
            unreleased: None,
            releases: Vec::new(),
            invalid_spans: Vec::new(),
        }
    }
}

/// The text of a spanned text that may be missing.
pub fn option_value<'a>(text: &Option<Spanned<&'a str>>) -> (value: Option<&'a str>)
    ensures
        value is Some <==> text is Some,
        value matches Some(found) ==> found == text->0.value,
{
    match text {
        Some(text) => Some(text.value),
        None => None,
    }
}

/// A copy of the text of a string slice that may be missing.
pub fn option_owned(text: Option<&str>) -> (owned: Option<String>)
    ensures
        owned is Some <==> text is Some,
        owned matches Some(found) ==> found@ == text->0@,
{
    match text {
        Some(text) => Some(text.to_owned()),
        None => None,
    }
}

/// A copy of a string that may be missing.
pub fn option_clone(string: &Option<String>) -> (copy: Option<String>)
    ensures
        copy is Some <==> string is Some,
        copy matches Some(found) ==> found@ == string->0@,
{
    match string {
        Some(string) => Some(string.clone()),
        None => None,
    }
}

impl ChangesView {
    /// The group without its spans.
    pub open spec fn owned(self) -> OwnedChangesView {
        OwnedChangesView {
            kind: self.kind.value,
            items: self.items.map_values(|item: Text| item.value),
        }
    }
}

/// The groups of changes without their spans.
pub open spec fn owned_changes(changes: Seq<ChangesView>) -> Seq<OwnedChangesView> {
    changes.map_values(|group: ChangesView| group.owned())
}

impl UnreleasedView {
    /// The section without its spans.
    pub open spec fn owned(self) -> OwnedUnreleasedView {
        OwnedUnreleasedView { url: self.url, changes: owned_changes(self.changes) }
    }
}

impl ReleaseView {
    /// Whether the release is marked as yanked: its marker is `[YANKED]`.
    pub open spec fn is_yanked(self) -> bool {
        self.yanked matches Some(marker) && marker.value == "[YANKED]"@
    }

    /// The release without its spans.
    pub open spec fn owned(self) -> OwnedReleaseView {
        OwnedReleaseView {
            version: self.version.value,
            url: self.url,
            date: match self.date {
                Some(date) => Some(date.value),
                None => None,
            },
            yanked: self.is_yanked(),
            changes: owned_changes(self.changes),
        }
    }
}

impl ChangelogView {
    /// The changelog without its spans and without what is invalid in it.
    pub open spec fn owned(self) -> OwnedChangelogView {
        OwnedChangelogView {
            title: match self.title {
                Some(title) => Some(title.value),
                None => None,
            },
            unreleased: match self.unreleased {
                Some(unreleased) => Some(unreleased.owned()),
                None => None,
            },
            releases: self.releases.map_values(|release: ReleaseView| release.owned()),
        }
    }
}

/// Copies of the groups of changes that own their texts.
fn changes_to_owned(changes: &Vec<ParsedChanges>) -> (owned: Vec<OwnedChanges>)
    ensures
        owned_changes_views(owned@) == owned_changes(changes_views(changes@)),
{
    let mut owned: Vec<OwnedChanges> = Vec::new();
    let mut index: usize = 0;
    while index < changes.len()
        invariant
            index <= changes@.len(),
            owned@.len() == index,
            forall|i: int| 0 <= i < index ==> (#[trigger] owned@[i])@ == changes@[i]@.owned(),
        decreases changes@.len() - index,
    {
        owned.push(changes[index].to_owned());
        index += 1;
    }
    assert(owned_changes_views(owned@) =~= owned_changes(changes_views(changes@)));
    owned
}

impl<'a> traits::Changelog for ParsedChangelog<'a> {
    type Unreleased = ParsedUnreleased<'a>;

    type Release = ParsedRelease<'a>;

    open spec fn spec_title(&self) -> Option<Seq<char>> {
        match self.title {
            Some(title) => Some(title.value@),
            None => None,
        }
    }

    open spec fn spec_unreleased(&self) -> Option<ParsedUnreleased<'a>> {
        self.unreleased
    }

    open spec fn spec_releases(&self) -> Seq<ParsedRelease<'a>> {
        self.releases@
    }

    fn title(&self) -> (title: Option<&str>)
        ensures
            title is Some <==> self.title is Some,
            title matches Some(found) ==> found == self.title->0.value,
    {
        option_value(&self.title)
    }

    fn unreleased(&self) -> (unreleased: Option<&ParsedUnreleased<'a>>)
        ensures
            unreleased is Some <==> self.unreleased is Some,
            unreleased matches Some(found) ==> *found == self.unreleased->0,
    {
        self.unreleased.as_ref()
    }

    fn releases(&self) -> (releases: &[ParsedRelease<'a>])
        ensures
            releases@ == self.releases@,
    {
        self.releases.as_slice()
    }
}

impl<'a> traits::Unreleased for ParsedUnreleased<'a> {
    type Changes = ParsedChanges<'a>;

    open spec fn spec_url(&self) -> Option<Seq<char>> {
        match self.url {
            Some(url) => Some(url@),
            None => None,
        }
    }

    open spec fn spec_changes(&self) -> Seq<ParsedChanges<'a>> {
        self.changes@
    }

    fn url(&self) -> (url: Option<&str>)
        ensures
            url is Some <==> self.url is Some,
            url matches Some(found) ==> found@ == self.url->0@,
    {
        match &self.url {
            Some(url) => Some(url.as_str()),
            None => None,
        }
    }

    fn changes(&self) -> (changes: &[ParsedChanges<'a>])
        ensures
            changes@ == self.changes@,
    {
        self.changes.as_slice()
    }
}

impl<'a> traits::Release for ParsedRelease<'a> {
    type Changes = ParsedChanges<'a>;

    open spec fn spec_version(&self) -> Seq<char> {
        self.version.value@
    }

    open spec fn spec_url(&self) -> Option<Seq<char>> {
        match self.url {
            Some(url) => Some(url@),
            None => None,
        }
    }

    open spec fn spec_date(&self) -> Option<Seq<char>> {
        match self.date {
            Some(date) => Some(date.value@),
            None => None,
        }
    }

    open spec fn spec_yanked(&self) -> bool {
        self@.is_yanked()
    }

    open spec fn spec_changes(&self) -> Seq<ParsedChanges<'a>> {
        self.changes@
    }

    fn version(&self) -> (version: &str)
        ensures
            version == self.version.value,
    {
        self.version.value
    }

    fn url(&self) -> (url: Option<&str>)
        ensures
            url is Some <==> self.url is Some,
            url matches Some(found) ==> found@ == self.url->0@,
    {
        match &self.url {
            Some(url) => Some(url.as_str()),
            None => None,
        }
    }

    fn date(&self) -> (date: Option<&str>)
        ensures
            date is Some <==> self.date is Some,
            date matches Some(found) ==> found == self.date->0.value,
    {
        option_value(&self.date)
    }

    fn yanked(&self) -> (yanked: bool)
        ensures
            yanked == self@.is_yanked(),
    {
        match &self.yanked {
            Some(marker) => str_eq(marker.value, "[YANKED]"),
            None => false,
        }
    }

    fn changes(&self) -> (changes: &[ParsedChanges<'a>])
        ensures
            changes@ == self.changes@,
    {
        self.changes.as_slice()
    }
}

impl<'a> traits::Changes for ParsedChanges<'a> {
    open spec fn spec_kind(&self) -> Seq<char> {
        self.kind.value@
    }

    open spec fn spec_items(&self) -> Seq<Seq<char>> {
        self.items@.map_values(|item: Spanned<&str>| item.value@)
    }

    fn kind(&self) -> (kind: &str)
        ensures
            kind == self.kind.value,
    {
        self.kind.value
    }

    fn items(&self) -> (items: Vec<&str>)
        ensures
            items@.len() == self.items@.len(),
            forall|i: int| 0 <= i < items@.len() ==> (#[trigger] items@[i]) == self.items@[i].value,
    {
        let mut items: Vec<&str> = Vec::new();
        let mut index: usize = 0;
        while index < self.items.len()
            invariant
                index <= self.items@.len(),
                items@.len() == index,
                forall|i: int| 0 <= i < index ==> (#[trigger] items@[i]) == self.items@[i].value,
            decreases self.items@.len() - index,
        {
            items.push(self.items[index].value);
            index += 1;
        }
        items
    }
}

impl<'a> ParsedChanges<'a> {
    /// A copy of the group that owns its texts.
    pub fn to_owned(&self) -> (owned: OwnedChanges)
        ensures
            owned@ == self@.owned(),
    {
        let mut items: Vec<String> = Vec::new();
        let mut index: usize = 0;
        while index < self.items.len()
            invariant
                index <= self.items@.len(),
                items@.len() == index,
                forall|i: int| 0 <= i < index ==> (#[trigger] items@[i])@ == self.items@[i].value@,
            decreases self.items@.len() - index,
        {
            items.push(self.items[index].value.to_owned());
            index += 1;
        }
        let owned = OwnedChanges { kind: self.kind.value.to_owned(), items };
        assert(owned@.items =~= self@.owned().items);
        owned
    }
}

impl<'a> ParsedUnreleased<'a> {
    /// A copy of the section that owns its texts.
    pub fn to_owned(&self) -> (owned: OwnedUnreleased)
        ensures
            owned@ == self@.owned(),
    {
        OwnedUnreleased { url: option_clone(&self.url), changes: changes_to_owned(&self.changes) }
    }
}

impl<'a> ParsedRelease<'a> {
    /// A copy of the release that owns its texts.
    pub fn to_owned(&self) -> (owned: OwnedRelease)
        ensures
            owned@ == self@.owned(),
    {
        OwnedRelease {
            version: self.version.value.to_owned(),
            url: option_clone(&self.url),
            date: option_owned(option_value(&self.date)),
            yanked: traits::Release::yanked(self),
            changes: changes_to_owned(&self.changes),
        }
    }
}

impl<'a> ParsedChangelog<'a> {
    /// Parses a changelog. See [`parse`](crate::parser::parse).
    pub fn parse(source: &'a str) -> (changelog: ParsedChangelog<'a>)
        ensures
            changelog@ == parsed(source@, markdown_tokens(source@), markdown_broken_links(source@)),
            changelog.source == source,
            changelog@.is_faithful(),
    {
        crate::parser::parse(source)
    }

    /// A locator for the source of the changelog.
    pub fn locator(&self) -> (locator: Locator<'a>)
        ensures
            locator.source() == self.source,
            is_line_index(self.source.spec_bytes(), locator.line_spans()),
    {
        Locator::new(self.source)
    }

    /// The diagnostic with its location as a position in the source of the
    /// changelog.
    pub fn locate(&self, diagnostic: &Diagnostic<Span>) -> (located: Diagnostic<Position>)
        requires
            diagnostic.location matches Some(span) ==> span.start < usize::MAX && span.end
                < usize::MAX,
        ensures
            located.rule == diagnostic.rule,
            located.path is Some <==> diagnostic.path is Some,
            located.path matches Some(path) ==> path@ == diagnostic.path->0@,
            located.location is Some <==> diagnostic.location is Some,
            located.location matches Some(position) ==> {
                &&& position.start.offset == diagnostic.location->0.start
                &&& position.end.offset == diagnostic.location->0.end
                &&& is_point_in(self.source.spec_bytes(), position.start)
                &&& is_point_in(self.source.spec_bytes(), position.end)
            },
    {
        let locator = self.locator();
        let location = match &diagnostic.location {
            Some(span) => Some(locator.position(span)),
            None => None,
        };
        Diagnostic { rule: diagnostic.rule, location, path: option_clone(&diagnostic.path) }
    }

    /// The diagnostics with their locations as positions in the source of
    /// the changelog.
    pub fn locate_all(&self, diagnostics: &[Diagnostic<Span>]) -> (located: Vec<
        Diagnostic<Position>,
    >)
        requires
            forall|i: int|
                0 <= i < diagnostics@.len() ==> ((#[trigger] diagnostics@[i]).location matches Some(
                    span,
                ) ==> span.start < usize::MAX && span.end < usize::MAX),
        ensures
            located@.len() == diagnostics@.len(),
            forall|i: int|
                0 <= i < located@.len() ==> {
                    &&& (#[trigger] located@[i]).rule == diagnostics@[i].rule
                    &&& located@[i].path is Some <==> diagnostics@[i].path is Some
                    &&& located@[i].path matches Some(path) ==> path@ == diagnostics@[i].path->0@
                    &&& located@[i].location is Some <==> diagnostics@[i].location is Some
                    &&& located@[i].location matches Some(position) ==> {
                        &&& position.start.offset == diagnostics@[i].location->0.start
                        &&& position.end.offset == diagnostics@[i].location->0.end
                        &&& is_point_in(self.source.spec_bytes(), position.start)
                        &&& is_point_in(self.source.spec_bytes(), position.end)
                    }
                },
    {
        let mut located: Vec<Diagnostic<Position>> = Vec::new();
        let mut index: usize = 0;
        while index < diagnostics.len()
            invariant
                index <= diagnostics@.len(),
                located@.len() == index,
                forall|i: int|
                    0 <= i < diagnostics@.len() ==> ((#[trigger] diagnostics@[i]).location matches Some(
                        span,
                    ) ==> span.start < usize::MAX && span.end < usize::MAX),
                forall|i: int|
                    0 <= i < index ==> {
                        &&& (#[trigger] located@[i]).rule == diagnostics@[i].rule
                        &&& located@[i].path is Some <==> diagnostics@[i].path is Some
                        &&& located@[i].path matches Some(path) ==> path@ == diagnostics@[i].path->0@
                        &&& located@[i].location is Some <==> diagnostics@[i].location is Some
                        &&& located@[i].location matches Some(position) ==> {
                            &&& position.start.offset == diagnostics@[i].location->0.start
                            &&& position.end.offset == diagnostics@[i].location->0.end
                            &&& is_point_in(self.source.spec_bytes(), position.start)
                            &&& is_point_in(self.source.spec_bytes(), position.end)
                        }
                    },
            decreases diagnostics@.len() - index,
        {
            located.push(self.locate(&diagnostics[index]));
            index += 1;
        }
        located
    }

    /// A copy of the changelog that owns its texts. What is invalid in the
    /// changelog is not part of the copy.
    pub fn to_owned(&self) -> (owned: OwnedChangelog)
        ensures
            owned@ == self@.owned(),
    {
        let mut releases: Vec<OwnedRelease> = Vec::new();
        let mut index: usize = 0;
        while index < self.releases.len()
            invariant
                index <= self.releases@.len(),
                releases@.len() == index,
                forall|i: int|
                    0 <= i < index ==> (#[trigger] releases@[i])@ == self.releases@[i]@.owned(),
            decreases self.releases@.len() - index,
        {
            releases.push(self.releases[index].to_owned());
            index += 1;
        }
        let unreleased = match &self.unreleased {
            Some(unreleased) => Some(unreleased.to_owned()),
            None => None,
        };
        let owned = OwnedChangelog {
            title: option_owned(option_value(&self.title)),
            unreleased,
            releases,
        };
        assert(owned@.releases =~= self@.owned().releases);
        owned
    }
}

} // verus!
