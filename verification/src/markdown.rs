//! The Markdown tokenizer, as far as the changelog parser needs it.
//!
//! The tokenizer itself is `pulldown_cmark`. This module runs it and turns what
//! it reports into [`Token`]s, plain values that the rest of the crate reads.
use pulldown_cmark::utils::TextMergeWithOffset;
use pulldown_cmark::{BrokenLink, Event as MdEvent, Options, Parser as MdParser, Tag, TagEnd};
use vstd::prelude::*;

use crate::span::Span;

verus! {

/// What a Markdown event is.
#[derive(Debug, PartialEq, Eq)]
pub enum TokenKind {
    /// A heading of the given level (1 to 6) begins.
    HeadingStart(usize),
    /// A heading of the given level ends.
    HeadingEnd(usize),
    /// A paragraph begins.
    ParagraphStart,
    /// A list begins; an ordered list carries the number of its first item.
    ListStart(Option<u64>),
    /// A list ends; `true` for an ordered list.
    ListEnd(bool),
    /// A list item begins.
    ItemStart,
    /// A list item ends.
    ItemEnd,
    /// A link with the given destination begins.
    LinkStart(String),
    /// A link ends.
    LinkEnd,
    /// A run of text.
    Text,
    /// Anything else.
    Other,
}

/// A Markdown event with the bytes of the source that it covers.
#[derive(Debug, PartialEq, Eq)]
pub struct Token {
    pub kind: TokenKind,
    pub span: Span,
}

/// What the tokenizer reports for a document.
pub struct Tokens {
    /// The events, in document order.
    pub tokens: Vec<Token>,
    /// Where a link refers to a label that the document does not define.
    pub broken_links: Vec<Span>,
}

/// `pulldown_cmark::Event`, an event as the tokenizer reports it. Nothing is
/// known of what one holds; [`kinds_in`] names the kinds of a list of them.
#[verifier::external_type_specification]
#[verifier::external_body]
pub struct ExMdEvent<'a>(pulldown_cmark::Event<'a>);

/// The events that the tokenizer reports for a document, in order.
pub uninterp spec fn markdown_tokens(source: Seq<char>) -> Seq<Token>;

/// The spans of the link references in a document that no definition resolves,
/// in the order in which the tokenizer meets them.
pub uninterp spec fn markdown_broken_links(source: Seq<char>) -> Seq<Span>;

/// The kinds of the events in a list of tokenizer events, in order.
pub uninterp spec fn kinds_in(events: Vec<(pulldown_cmark::Event<'_>, Span)>) -> Seq<TokenKind>;

/// The plain events that stand for a list of tokenizer events: each with its
/// kind and its span.
pub open spec fn plain_tokens(events: Vec<(pulldown_cmark::Event<'_>, Span)>) -> Seq<Token> {
    Seq::new(events@.len(), |i: int| Token { kind: kinds_in(events)[i], span: events@[i].1 })
}

/// Runs `pulldown_cmark::Parser` with no extension enabled over `source`, with
/// a callback that notes each broken link reference and resolves none, and
/// merges adjacent text events with `TextMergeWithOffset`. Every event has a
/// kind. The events and the noted spans are named, not described: they depend
/// on the source alone.
#[verifier::external_body]
fn run_tokenizer<'a>(source: &'a str) -> (out: (Vec<(pulldown_cmark::Event<'a>, Span)>, Vec<Span>))
    ensures
        kinds_in(out.0).len() == out.0@.len(),
        plain_tokens(out.0) == markdown_tokens(source@),
        out.1@ == markdown_broken_links(source@),
{
    let mut broken = Vec::new();
    let note = |link: BrokenLink<'a>| {
        broken.push(Span { start: link.span.start, end: link.span.end });
        None
    };
    let parser = MdParser::new_with_broken_link_callback(source, Options::empty(), Some(note));
    let events = TextMergeWithOffset::new(parser.into_offset_iter())
        .map(|(event, range)| (event, Span { start: range.start, end: range.end }))
        .collect();
    (events, broken)
}

/// Hands out the kind of the event at `index`: tells the variants of
/// `pulldown_cmark::Event`, `Tag` and `TagEnd` apart that the parser reads, and
/// moves their fields over. A heading level becomes its number, 1 for `H1` up
/// to 6 for `H6`.
#[verifier::external_body]
fn kind_at(events: &Vec<(pulldown_cmark::Event<'_>, Span)>, index: usize) -> (kind: TokenKind)
    requires
        index < events@.len(),
    ensures
        kind == kinds_in(*events)[index as int],
{
    match &events[index].0 {
        MdEvent::Start(Tag::Heading { level, .. }) => TokenKind::HeadingStart(*level as usize),
        MdEvent::End(TagEnd::Heading(level)) => TokenKind::HeadingEnd(*level as usize),
        MdEvent::Start(Tag::Paragraph) => TokenKind::ParagraphStart,
        MdEvent::Start(Tag::List(first)) => TokenKind::ListStart(*first),
        MdEvent::End(TagEnd::List(ordered)) => TokenKind::ListEnd(*ordered),
        MdEvent::Start(Tag::Item) => TokenKind::ItemStart,
        MdEvent::End(TagEnd::Item) => TokenKind::ItemEnd,
        MdEvent::Start(Tag::Link { dest_url, .. }) => TokenKind::LinkStart(dest_url.to_string()),
        MdEvent::End(TagEnd::Link) => TokenKind::LinkEnd,
        MdEvent::Text(_) => TokenKind::Text,
        _ => TokenKind::Other,
    }
}

/// The events and broken link references of a Markdown document.
pub fn tokenize(source: &str) -> (out: Tokens)
    ensures
        out.tokens@ == markdown_tokens(source@),
        out.broken_links@ == markdown_broken_links(source@),
{
    let (events, broken_links) = run_tokenizer(source);
    let mut tokens: Vec<Token> = Vec::new();
    let mut index: usize = 0;
    while index < events.len()
        invariant
            index <= events@.len(),
            kinds_in(events).len() == events@.len(),
            tokens@ == plain_tokens(events).take(index as int),
        decreases events@.len() - index,
    {
        let kind = kind_at(&events, index);
        tokens.push(Token { kind, span: events[index].1 });
        assert(tokens@ =~= plain_tokens(events).take(index + 1));
        index += 1;
    }
    assert(tokens@ =~= plain_tokens(events));
    Tokens { tokens, broken_links }
}

} // verus!
