//! A changelog that owns its texts.
use vstd::prelude::*;

use super::traits;

verus! {

/// A changelog.
#[derive(Debug, PartialEq)]
pub struct OwnedChangelog {
    pub title: Option<String>,
    pub unreleased: Option<OwnedUnreleased>,
    pub releases: Vec<OwnedRelease>,
}

/// The unreleased section of a changelog.
#[derive(Debug, PartialEq)]
pub struct OwnedUnreleased {
    pub url: Option<String>,
    pub changes: Vec<OwnedChanges>,
}

/// A release section of a changelog.
#[derive(Debug, PartialEq)]
pub struct OwnedRelease {
    pub version: String,
    pub url: Option<String>,
    pub date: Option<String>,
    pub yanked: bool,
    pub changes: Vec<OwnedChanges>,
}

/// A group of changes of one type.
#[derive(Debug, PartialEq)]
pub struct OwnedChanges {
    pub kind: String,
    pub items: Vec<String>,
}

/// What an [`OwnedChanges`] holds.
#[verifier::ext_equal]
pub struct OwnedChangesView {
    pub kind: Seq<char>,
    pub items: Seq<Seq<char>>,
}

/// What an [`OwnedUnreleased`] holds.
#[verifier::ext_equal]
pub struct OwnedUnreleasedView {
    pub url: Option<Seq<char>>,
    pub changes: Seq<OwnedChangesView>,
}

/// What an [`OwnedRelease`] holds.
#[verifier::ext_equal]
pub struct OwnedReleaseView {
    pub version: Seq<char>,
    pub url: Option<Seq<char>>,
    pub date: Option<Seq<char>>,
    pub yanked: bool,
    pub changes: Seq<OwnedChangesView>,
}

/// What an [`OwnedChangelog`] holds.
#[verifier::ext_equal]
pub struct OwnedChangelogView {
    pub title: Option<Seq<char>>,
    pub unreleased: Option<OwnedUnreleasedView>,
    pub releases: Seq<OwnedReleaseView>,
}

/// The text of a string that may be missing.
pub open spec fn option_text(string: Option<String>) -> Option<Seq<char>> {
    match string {
        Some(string) => Some(string@),
        None => None,
    }
}

/// The texts of a sequence of strings.
pub open spec fn texts(strings: Seq<String>) -> Seq<Seq<char>> {
    strings.map_values(|string: String| string@)
}

/// The views of a sequence of groups of changes.
pub open spec fn owned_changes_views(changes: Seq<OwnedChanges>) -> Seq<OwnedChangesView> {
    changes.map_values(|group: OwnedChanges| group@)
}

/// The views of a sequence of releases.
pub open spec fn owned_release_views(releases: Seq<OwnedRelease>) -> Seq<OwnedReleaseView> {
    releases.map_values(|release: OwnedRelease| release@)
}

impl View for OwnedChanges {
    type V = OwnedChangesView;

    open spec fn view(&self) -> OwnedChangesView {
        OwnedChangesView { kind: self.kind@, items: texts(self.items@) }
    }
}

impl View for OwnedUnreleased {
    type V = OwnedUnreleasedView;

    open spec fn view(&self) -> OwnedUnreleasedView {
        OwnedUnreleasedView {
            url: option_text(self.url),
            changes: owned_changes_views(self.changes@),
        }
    }
}

impl View for OwnedRelease {
    type V = OwnedReleaseView;

    open spec fn view(&self) -> OwnedReleaseView {
        OwnedReleaseView {
            version: self.version@,
            url: option_text(self.url),
            date: option_text(self.date),
            yanked: self.yanked,
            changes: owned_changes_views(self.changes@),
        }
    }
}

impl View for OwnedChangelog {
    type V = OwnedChangelogView;

    open spec fn view(&self) -> OwnedChangelogView {
        OwnedChangelogView {
            title: option_text(self.title),
            unreleased: match self.unreleased {
                Some(unreleased) => Some(unreleased@),
                None => None,
            },
            releases: owned_release_views(self.releases@),
        }
    }
}

/// The text of a string that may be missing, borrowed.
pub fn as_option_str(string: &Option<String>) -> (text: Option<&str>)
    ensures
        text is Some <==> string is Some,
        text matches Some(found) ==> found@ == string->0@,
{
    match string {
        Some(string) => Some(string.as_str()),
        None => None,
    }
}

/// The texts of `strings`, borrowed.
pub fn as_strs(strings: &Vec<String>) -> (found: Vec<&str>)
    ensures
        found@.len() == strings@.len(),
        forall|i: int| 0 <= i < found@.len() ==> (#[trigger] found@[i])@ == strings@[i]@,
{
    let mut found: Vec<&str> = Vec::new();
    let mut index: usize = 0;
    while index < strings.len()
        invariant
            index <= strings@.len(),
            found@.len() == index,
            forall|i: int| 0 <= i < index ==> (#[trigger] found@[i])@ == strings@[i]@,
        decreases strings@.len() - index,
    {
        found.push(strings[index].as_str());
        index += 1;
    }
    found
}

impl traits::Changelog for OwnedChangelog {
    type Unreleased = OwnedUnreleased;

    type Release = OwnedRelease;

    open spec fn spec_title(&self) -> Option<Seq<char>> {
        option_text(self.title)
    }

    open spec fn spec_unreleased(&self) -> Option<OwnedUnreleased> {
        self.unreleased
    }

    open spec fn spec_releases(&self) -> Seq<OwnedRelease> {
        self.releases@
    }

    fn title(&self) -> (title: Option<&str>)
        ensures
            title is Some <==> self.title is Some,
            title matches Some(found) ==> found@ == self.title->0@,
    {
        as_option_str(&self.title)
    }

    fn unreleased(&self) -> (unreleased: Option<&OwnedUnreleased>)
        ensures
            unreleased is Some <==> self.unreleased is Some,
            unreleased matches Some(found) ==> *found == self.unreleased->0,
    {
        self.unreleased.as_ref()
    }

    fn releases(&self) -> (releases: &[OwnedRelease])
        ensures
            releases@ == self.releases@,
    {
        self.releases.as_slice()
    }
}

impl traits::Unreleased for OwnedUnreleased {
    type Changes = OwnedChanges;

    open spec fn spec_url(&self) -> Option<Seq<char>> {
        option_text(self.url)
    }

    open spec fn spec_changes(&self) -> Seq<OwnedChanges> {
        self.changes@
    }

    fn url(&self) -> (url: Option<&str>)
        ensures
            url is Some <==> self.url is Some,
            url matches Some(found) ==> found@ == self.url->0@,
    {
        as_option_str(&self.url)
    }

    fn changes(&self) -> (changes: &[OwnedChanges])
        ensures
            changes@ == self.changes@,
    {
        self.changes.as_slice()
    }
}

impl traits::Release for OwnedRelease {
    type Changes = OwnedChanges;

    open spec fn spec_version(&self) -> Seq<char> {
        self.version@
    }

    open spec fn spec_url(&self) -> Option<Seq<char>> {
        option_text(self.url)
    }

    open spec fn spec_date(&self) -> Option<Seq<char>> {
        option_text(self.date)
    }

    open spec fn spec_yanked(&self) -> bool {
        self.yanked
    }

    open spec fn spec_changes(&self) -> Seq<OwnedChanges> {
        self.changes@
    }

    fn version(&self) -> (version: &str)
        ensures
            version@ == self.version@,
    {
        self.version.as_str()
    }

    fn url(&self) -> (url: Option<&str>)
        ensures
            url is Some <==> self.url is Some,
            url matches Some(found) ==> found@ == self.url->0@,
    {
        as_option_str(&self.url)
    }

    fn date(&self) -> (date: Option<&str>)
        ensures
            date is Some <==> self.date is Some,
            date matches Some(found) ==> found@ == self.date->0@,
    {
        as_option_str(&self.date)
    }

    fn yanked(&self) -> (yanked: bool)
        ensures
            yanked == self.yanked,
    {
        self.yanked
    }

    fn changes(&self) -> (changes: &[OwnedChanges])
        ensures
            changes@ == self.changes@,
    {
        self.changes.as_slice()
    }
}

impl traits::Changes for OwnedChanges {
    open spec fn spec_kind(&self) -> Seq<char> {
        self.kind@
    }

    open spec fn spec_items(&self) -> Seq<Seq<char>> {
        texts(self.items@)
    }

    fn kind(&self) -> (kind: &str)
        ensures
            kind@ == self.kind@,
    {
        self.kind.as_str()
    }

    fn items(&self) -> (items: Vec<&str>)
        ensures
            items@.len() == self.items@.len(),
            forall|i: int| 0 <= i < items@.len() ==> (#[trigger] items@[i])@ == self.items@[i]@,
    {
        as_strs(&self.items)
    }
}

} // verus!
