//! A changelog as a sequence of sections, in the order of the document.
//!
//! Unlike a [`ParsedChangelog`](crate::changelog::ParsedChangelog), this form
//! keeps every title and every unreleased section that the document holds.
use vstd::prelude::*;

use crate::changelog::parsed::{
    text_views, ChangesView, ReleaseView, Text, UnreleasedView, string_option_view,
    text_option_view,
};
use crate::span::{Span, Spanned};

verus! {

/// A changelog: its sections, and the spans of its broken link references.
#[derive(Debug, PartialEq)]
pub struct Changelog<'a> {
    pub sections: Vec<Section<'a>>,
    pub broken_links: Vec<Span>,
}

/// A section of a changelog.
#[derive(Debug, PartialEq)]
pub enum Section<'a> {
    Title(Spanned<&'a str>),
    Unreleased(Unreleased<'a>),
    Release(Release<'a>),
    Invalid(InvalidSection),
    InvalidTitle(InvalidTitle),
}

/// An unreleased section.
#[derive(Debug, PartialEq)]
pub struct Unreleased<'a> {
    pub heading_span: Span,
    pub url: Option<String>,
    pub changes: Vec<Changes<'a>>,
}

/// A release section.
#[derive(Debug, PartialEq)]
pub struct Release<'a> {
    pub heading_span: Span,
    pub version: Spanned<&'a str>,
    pub url: Option<String>,
    pub date: Option<Spanned<&'a str>>,
    pub yanked: Option<Spanned<&'a str>>,
    pub changes: Vec<Changes<'a>>,
}

/// A group of changes of one type.
#[derive(Debug, PartialEq)]
pub struct Changes<'a> {
    pub heading_span: Span,
    pub kind: Spanned<&'a str>,
    pub changes: Vec<Spanned<&'a str>>,
}

/// A second-level heading that starts no section.
#[derive(Copy, Clone, Debug, PartialEq, Eq, Structural)]
pub struct InvalidSection {
    pub heading_span: Span,
}

/// A title that is more than plain text.
#[derive(Copy, Clone, Debug, PartialEq, Eq, Structural)]
pub struct InvalidTitle {
    pub heading_span: Span,
}

/// What a [`Section`] holds.
#[verifier::ext_equal]
pub enum SectionView {
    Title(Text),
    Unreleased(UnreleasedView),
    Release(ReleaseView),
    Invalid(InvalidSection),
    InvalidTitle(InvalidTitle),
}

/// What a [`Changelog`] holds.
#[verifier::ext_equal]
pub struct ChangelogView {
    pub sections: Seq<SectionView>,
    pub broken_links: Seq<Span>,
}

/// The views of a sequence of groups of changes.
pub open spec fn changes_views(changes: Seq<Changes>) -> Seq<ChangesView> {
    changes.map_values(|group: Changes| group@)
}

impl<'a> View for Changes<'a> {
    type V = ChangesView;

    open spec fn view(&self) -> ChangesView {
        ChangesView {
            heading_span: self.heading_span,
            kind: self.kind@,
            items: text_views(self.changes@),
        }
    }
}

impl<'a> View for Unreleased<'a> {
    type V = UnreleasedView;

    open spec fn view(&self) -> UnreleasedView {
        UnreleasedView {
            heading_span: self.heading_span,
            url: string_option_view(self.url),
            changes: changes_views(self.changes@),
        }
    }
}

impl<'a> View for Release<'a> {
    type V = ReleaseView;

    open spec fn view(&self) -> ReleaseView {
        ReleaseView {
            heading_span: self.heading_span,
            version: self.version@,
            url: string_option_view(self.url),
            date: text_option_view(self.date),
            yanked: text_option_view(self.yanked),
            changes: changes_views(self.changes@),
        }
    }
}

impl<'a> View for Section<'a> {
    type V = SectionView;

    open spec fn view(&self) -> SectionView {
        match self {
            Section::Title(title) => SectionView::Title(title@),
            Section::Unreleased(unreleased) => SectionView::Unreleased(unreleased@),
            Section::Release(release) => SectionView::Release(release@),
            Section::Invalid(invalid) => SectionView::Invalid(*invalid),
            Section::InvalidTitle(invalid) => SectionView::InvalidTitle(*invalid),
        }
    }
}

impl<'a> View for Changelog<'a> {
    type V = ChangelogView;

    open spec fn view(&self) -> ChangelogView {
        ChangelogView {
            sections: self.sections@.map_values(|section: Section| section@),
            broken_links: self.broken_links@,
        }
    }
}

impl<'a> Default for Changelog<'a> {
    fn default() -> (changelog: Changelog<'a>)
        ensures
            changelog.sections@.len() == 0,
            changelog.broken_links@.len() == 0,
    {
        Changelog { sections: Vec::new(), broken_links: Vec::new() }
    }
}

} // verus!
