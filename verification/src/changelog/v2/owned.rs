//! A changelog that owns its texts.
use vstd::prelude::*;

use crate::changelog::owned::{
    as_option_str, as_strs, option_text, texts, OwnedChangelogView, OwnedChangesView,
    OwnedReleaseView, OwnedUnreleasedView,
};
use crate::changelog::traits;

verus! {

/// A changelog.
#[derive(Debug, PartialEq)]
pub struct Changelog {
    pub title: Option<String>,
    pub unreleased: Option<Unreleased>,
    pub releases: Vec<Release>,
}

/// The unreleased section of a changelog.
#[derive(Debug, PartialEq)]
pub struct Unreleased {
    pub url: Option<String>,
    pub changes: Vec<Changes>,
}

/// A release section of a changelog.
#[derive(Debug, PartialEq)]
pub struct Release {
    pub version: String,
    pub url: Option<String>,
    pub date: Option<String>,
    pub yanked: bool,
    pub changes: Vec<Changes>,
}

/// A group of changes of one type.
#[derive(Debug, PartialEq)]
pub struct Changes {
    pub kind: String,
    pub items: Vec<String>,
}

/// The views of a sequence of groups of changes.
pub open spec fn changes_views(changes: Seq<Changes>) -> Seq<OwnedChangesView> {
    changes.map_values(|group: Changes| group@)
}

/// The views of a sequence of releases.
pub open spec fn release_views(releases: Seq<Release>) -> Seq<OwnedReleaseView> {
    releases.map_values(|release: Release| release@)
}

impl View for Changes {
    type V = OwnedChangesView;

    open spec fn view(&self) -> OwnedChangesView {
        OwnedChangesView { kind: self.kind@, items: texts(self.items@) }
    }
}

impl View for Unreleased {
    type V = OwnedUnreleasedView;

    open spec fn view(&self) -> OwnedUnreleasedView {
        OwnedUnreleasedView {
            url: option_text(self.url),
            changes: changes_views(self.changes@),
        }
    }
}

impl View for Release {
    type V = OwnedReleaseView;

    open spec fn view(&self) -> OwnedReleaseView {
        OwnedReleaseView {
            version: self.version@,
            url: option_text(self.url),
            date: option_text(self.date),
            yanked: self.yanked,
            changes: changes_views(self.changes@),
        }
    }
}

impl View for Changelog {
    type V = OwnedChangelogView;

    open spec fn view(&self) -> OwnedChangelogView {
        OwnedChangelogView {
            title: option_text(self.title),
            unreleased: match self.unreleased {
                Some(unreleased) => Some(unreleased@),
                None => None,
            },
            releases: release_views(self.releases@),
        }
    }
}

impl traits::Changelog for Changelog {
    type Unreleased = Unreleased;

    type Release = Release;

    open spec fn spec_title(&self) -> Option<Seq<char>> {
        option_text(self.title)
    }

    open spec fn spec_unreleased(&self) -> Option<Unreleased> {
        self.unreleased
    }

    open spec fn spec_releases(&self) -> Seq<Release> {
        self.releases@
    }

    fn title(&self) -> (title: Option<&str>)
        ensures
            title is Some <==> self.title is Some,
            title matches Some(found) ==> found@ == self.title->0@,
    {
        as_option_str(&self.title)
    }

    fn unreleased(&self) -> (unreleased: Option<&Unreleased>)
        ensures
            unreleased is Some <==> self.unreleased is Some,
            unreleased matches Some(found) ==> *found == self.unreleased->0,
    {
        self.unreleased.as_ref()
    }

    fn releases(&self) -> (releases: &[Release])
        ensures
            releases@ == self.releases@,
    {
        self.releases.as_slice()
    }
}

impl traits::Unreleased for Unreleased {
    type Changes = Changes;

    open spec fn spec_url(&self) -> Option<Seq<char>> {
        option_text(self.url)
    }

    open spec fn spec_changes(&self) -> Seq<Changes> {
        self.changes@
    }

    fn url(&self) -> (url: Option<&str>)
        ensures
            url is Some <==> self.url is Some,
            url matches Some(found) ==> found@ == self.url->0@,
    {
        as_option_str(&self.url)
    }

    fn changes(&self) -> (changes: &[Changes])
        ensures
            changes@ == self.changes@,
    {
        self.changes.as_slice()
    }
}

impl traits::Release for Release {
    type Changes = Changes;

    open spec fn spec_version(&self) -> Seq<char> {
        self.version@
    }

    open spec fn spec_url(&self) -> Option<Seq<char>> {
        option_text(self.url)
    }

    open spec fn spec_date(&self) -> Option<Seq<char>> {
        option_text(self.date)
    }

    open spec fn spec_yanked(&self) -> bool {
        self.yanked
    }

    open spec fn spec_changes(&self) -> Seq<Changes> {
        self.changes@
    }

    fn version(&self) -> (version: &str)
        ensures
            version@ == self.version@,
    {
        self.version.as_str()
    }

    fn url(&self) -> (url: Option<&str>)
        ensures
            url is Some <==> self.url is Some,
            url matches Some(found) ==> found@ == self.url->0@,
    {
        as_option_str(&self.url)
    }

    fn date(&self) -> (date: Option<&str>)
        ensures
            date is Some <==> self.date is Some,
            date matches Some(found) ==> found@ == self.date->0@,
    {
        as_option_str(&self.date)
    }

    fn yanked(&self) -> (yanked: bool)
        ensures
            yanked == self.yanked,
    {
        self.yanked
    }

    fn changes(&self) -> (changes: &[Changes])
        ensures
            changes@ == self.changes@,
    {
        self.changes.as_slice()
    }
}

impl traits::Changes for Changes {
    open spec fn spec_kind(&self) -> Seq<char> {
        self.kind@
    }

    open spec fn spec_items(&self) -> Seq<Seq<char>> {
        texts(self.items@)
    }

    fn kind(&self) -> (kind: &str)
        ensures
            kind@ == self.kind@,
    {
        self.kind.as_str()
    }

    fn items(&self) -> (items: Vec<&str>)
        ensures
            items@.len() == self.items@.len(),
            forall|i: int| 0 <= i < items@.len() ==> (#[trigger] items@[i])@ == self.items@[i]@,
    {
        as_strs(&self.items)
    }
}

} // verus!
