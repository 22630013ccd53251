//! What every representation of a changelog offers.
use vstd::prelude::*;

verus! {

/// The text of a string slice that may be missing.
pub open spec fn str_option_view(text: Option<&str>) -> Option<Seq<char>> {
    match text {
        Some(text) => Some(text@),
        None => None,
    }
}

/// The texts of a sequence of string slices.
pub open spec fn str_views(texts: Seq<&str>) -> Seq<Seq<char>> {
    texts.map_values(|text: &str| text@)
}

/// A changelog.
pub trait Changelog {
    type Unreleased: Unreleased;

    type Release: Release;

    /// The title.
    spec fn spec_title(&self) -> Option<Seq<char>>;

    /// The unreleased section.
    spec fn spec_unreleased(&self) -> Option<Self::Unreleased>;

    /// The releases, in the order of the document.
    spec fn spec_releases(&self) -> Seq<Self::Release>;

    /// The title.
    fn title(&self) -> (title: Option<&str>)
        ensures
            str_option_view(title) == self.spec_title(),
    ;

    /// The unreleased section.
    fn unreleased(&self) -> (unreleased: Option<&Self::Unreleased>)
        ensures
            unreleased is Some <==> self.spec_unreleased() is Some,
            unreleased matches Some(found) ==> *found == self.spec_unreleased()->0,
    ;

    /// The releases, in the order of the document.
    fn releases(&self) -> (releases: &[Self::Release])
        ensures
            releases@ == self.spec_releases(),
    ;
}

/// An unreleased section.
pub trait Unreleased {
    type Changes: Changes;

    /// A link to the unreleased changes.
    spec fn spec_url(&self) -> Option<Seq<char>>;

    /// The unreleased changes, one group for each type of change.
    spec fn spec_changes(&self) -> Seq<Self::Changes>;

    /// A link to the unreleased changes.
    fn url(&self) -> (url: Option<&str>)
        ensures
            str_option_view(url) == self.spec_url(),
    ;

    /// The unreleased changes, one group for each type of change.
    fn changes(&self) -> (changes: &[Self::Changes])
        ensures
            changes@ == self.spec_changes(),
    ;
}

/// A release section.
pub trait Release {
    type Changes: Changes;

    /// The release version.
    spec fn spec_version(&self) -> Seq<char>;

    /// A link to the release.
    spec fn spec_url(&self) -> Option<Seq<char>>;

    /// The release date.
    spec fn spec_date(&self) -> Option<Seq<char>>;

    /// Whether the release was yanked.
    spec fn spec_yanked(&self) -> bool;

    /// The changes, one group for each type of change.
    spec fn spec_changes(&self) -> Seq<Self::Changes>;

    /// The release version.
    fn version(&self) -> (version: &str)
        ensures
            version@ == self.spec_version(),
    ;

    /// A link to the release.
    fn url(&self) -> (url: Option<&str>)
        ensures
            str_option_view(url) == self.spec_url(),
    ;

    /// The release date.
    fn date(&self) -> (date: Option<&str>)
        ensures
            str_option_view(date) == self.spec_date(),
    ;

    /// Whether the release was yanked.
    fn yanked(&self) -> (yanked: bool)
        ensures
            yanked == self.spec_yanked(),
    ;

    /// The changes, one group for each type of change.
    fn changes(&self) -> (changes: &[Self::Changes])
        ensures
            changes@ == self.spec_changes(),
    ;
}

/// A group of changes of one type.
pub trait Changes {
    /// The type of change, such as "Added" or "Changed".
    spec fn spec_kind(&self) -> Seq<char>;

    /// The individual changes.
    spec fn spec_items(&self) -> Seq<Seq<char>>;

    /// The type of change, such as "Added" or "Changed".
    fn kind(&self) -> (kind: &str)
        ensures
            kind@ == self.spec_kind(),
    ;

    /// The individual changes.
    fn items(&self) -> (items: Vec<&str>)
        ensures
            str_views(items@) == self.spec_items(),
    ;
}

} // verus!
