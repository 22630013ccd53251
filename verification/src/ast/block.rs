//! Block and inline elements.
use vstd::prelude::*;

use crate::span::Span;

verus! {

/// A block element.
#[derive(Debug, PartialEq)]
pub enum Block {
    Heading(Heading),
    Paragraph(Literal),
    List(List),
}

/// An inline element.
#[derive(Debug, PartialEq)]
pub enum Inline {
    Link(Link),
    Literal(Literal),
}

/// A section heading.
#[derive(Debug, PartialEq)]
pub struct Heading {
    pub span: Span,
    pub level: usize,
    pub inlines: Vec<Inline>,
}

/// A link.
#[derive(Debug, PartialEq)]
pub struct Link {
    pub span: Span,
    pub content: Literal,
    pub target: String,
}

/// Literal markup.
#[derive(Copy, Clone, Debug, PartialEq, Eq, Structural)]
pub struct Literal {
    pub span: Span,
}

/// An unordered list.
#[derive(Debug, PartialEq)]
pub struct List {
    pub span: Span,
    pub items: Vec<Literal>,
}

/// What a [`Link`] holds.
#[verifier::ext_equal]
pub struct LinkView {
    pub span: Span,
    pub content: Literal,
    pub target: Seq<char>,
}

/// What an [`Inline`] holds.
#[verifier::ext_equal]
pub enum InlineView {
    Link(LinkView),
    Literal(Literal),
}

/// What a [`Heading`] holds.
#[verifier::ext_equal]
pub struct HeadingView {
    pub span: Span,
    pub level: usize,
    pub inlines: Seq<InlineView>,
}

/// What a [`List`] holds.
#[verifier::ext_equal]
pub struct ListView {
    pub span: Span,
    pub items: Seq<Literal>,
}

/// What a [`Block`] holds.
#[verifier::ext_equal]
pub enum BlockView {
    Heading(HeadingView),
    Paragraph(Literal),
    List(ListView),
}

impl Literal {
    /// Literal markup at `span`.
    pub fn new(span: Span) -> (literal: Literal)
        ensures
            literal.span == span,
    {
        Literal { span }
    }
}

impl View for Link {
    type V = LinkView;

    open spec fn view(&self) -> LinkView {
        LinkView { span: self.span, content: self.content, target: self.target@ }
    }
}

impl View for Inline {
    type V = InlineView;

    open spec fn view(&self) -> InlineView {
        match self {
            Inline::Link(link) => InlineView::Link(link@),
            Inline::Literal(literal) => InlineView::Literal(*literal),
        }
    }
}

impl View for Heading {
    type V = HeadingView;

    open spec fn view(&self) -> HeadingView {
        HeadingView {
            span: self.span,
            level: self.level,
            inlines: self.inlines@.map_values(|inline: Inline| inline@),
        }
    }
}

impl View for List {
    type V = ListView;

    open spec fn view(&self) -> ListView {
        ListView { span: self.span, items: self.items@ }
    }
}

impl View for Block {
    type V = BlockView;

    open spec fn view(&self) -> BlockView {
        match self {
            Block::Heading(heading) => BlockView::Heading(heading@),
            Block::Paragraph(literal) => BlockView::Paragraph(*literal),
            Block::List(list) => BlockView::List(list@),
        }
    }
}

} // verus!
