//! Markdown events read as block elements.
use vstd::prelude::*;
use vstd::string::StringSliceAdditionalSpecFns;

use super::{
    Block, BlockView, Heading, HeadingView, Inline, InlineView, Link, LinkView, List, ListView,
    Literal,
};
use crate::markdown::{Token, TokenKind};
use crate::span::Span;

verus! {

/// The end of an element that holds other elements.
#[derive(Copy, Clone, Debug, PartialEq, Eq, Structural)]
pub enum Closing {
    /// The end of a heading of the given level.
    Heading(usize),
    /// The end of a link.
    Link,
    /// The end of a list item.
    Item,
}

/// Whether an event of kind `kind` is the end that `until` names.
pub open spec fn closes(kind: TokenKind, until: Closing) -> bool {
    match until {
        Closing::Heading(level) => kind == TokenKind::HeadingEnd(level),
        Closing::Link => kind is LinkEnd,
        Closing::Item => kind is ItemEnd,
    }
}

/// The span of what stands before the end `until`, and the index behind that
/// end, started with `span`: from the start of the first event (as long as the
/// span starts at 0, the next event's start is taken) to the end of the last.
pub open spec fn span_until(tokens: Seq<Token>, index: int, until: Closing, span: Span) -> (
    Span,
    int,
)
    decreases tokens.len() - index,
{
    if index >= tokens.len() {
        (span, index)
    } else if closes(tokens[index].kind, until) {
        (span, index + 1)
    } else {
        let start = if span.start == 0 {
            tokens[index].span.start
        } else {
            span.start
        };
        span_until(tokens, index + 1, until, Span { start, end: tokens[index].span.end })
    }
}

/// The inline elements of a heading of level `level` whose events begin at
/// `index`, behind those in `found`, and the index behind the heading's end.
/// A link becomes a [`Link`] with the span of what it holds as its content; a
/// run of text becomes a [`Literal`]; anything else is passed over.
pub open spec fn inlines_until(
    tokens: Seq<Token>,
    index: int,
    level: usize,
    found: Seq<InlineView>,
) -> (Seq<InlineView>, int)
    decreases tokens.len() - index,
{
    if index >= tokens.len() {
        (found, index)
    } else {
        match tokens[index].kind {
            TokenKind::LinkStart(target) => {
                let (content, next) = span_until(tokens, index + 1, Closing::Link, Span::empty());
                let link = LinkView {
                    span: tokens[index].span,
                    content: Literal { span: content },
                    target: target@,
                };
                if index < next <= tokens.len() {
                    inlines_until(tokens, next, level, found.push(InlineView::Link(link)))
                } else {
                    (found, index)
                }
            },
            TokenKind::Text => inlines_until(
                tokens,
                index + 1,
                level,
                found.push(InlineView::Literal(Literal { span: tokens[index].span })),
            ),
            TokenKind::HeadingEnd(end) => if end == level {
                (found, index + 1)
            } else {
                inlines_until(tokens, index + 1, level, found)
            },
            _ => inlines_until(tokens, index + 1, level, found),
        }
    }
}

/// The items of a list whose events begin at `index`, behind those in `found`,
/// and the index behind the first end of an unordered list. An item is the
/// span of what stands up to the first end of an item.
pub open spec fn items_until(tokens: Seq<Token>, index: int, found: Seq<Literal>) -> (
    Seq<Literal>,
    int,
)
    decreases tokens.len() - index,
{
    if index >= tokens.len() {
        (found, index)
    } else {
        match tokens[index].kind {
            TokenKind::ItemStart => {
                let (item, next) = span_until(tokens, index + 1, Closing::Item, Span::empty());
                if index < next <= tokens.len() {
                    items_until(tokens, next, found.push(Literal { span: item }))
                } else {
                    (found, index)
                }
            },
            TokenKind::ListEnd(false) => (found, index + 1),
            _ => items_until(tokens, index + 1, found),
        }
    }
}

/// The span of a heading whose events cover `span`: the line feed that ends
/// the heading's last line, where the tokenizer counted it in, is left out.
pub open spec fn heading_span(bytes: Seq<u8>, span: Span) -> Span {
    if span.start < span.end <= bytes.len() && bytes[span.end - 1] == 10u8 {
        Span { start: span.start, end: (span.end - 1) as usize }
    } else {
        span
    }
}

/// The first block at or after `index`, and the index behind its events.
/// Only headings, paragraphs and unordered lists are blocks: every other
/// event is passed over.
pub open spec fn next_block(bytes: Seq<u8>, tokens: Seq<Token>, index: int) -> Option<
    (BlockView, int),
>
    decreases tokens.len() - index,
{
    if index >= tokens.len() {
        None
    } else {
        match tokens[index].kind {
            TokenKind::HeadingStart(level) => {
                let (inlines, next) = inlines_until(tokens, index + 1, level, Seq::empty());
                Some(
                    (
                        BlockView::Heading(
                            HeadingView {
                                span: heading_span(bytes, tokens[index].span),
                                level,
                                inlines,
                            },
                        ),
                        next,
                    ),
                )
            },
            TokenKind::ParagraphStart => Some(
                (BlockView::Paragraph(Literal { span: tokens[index].span }), index + 1),
            ),
            TokenKind::ListStart(None) => {
                let (items, next) = items_until(tokens, index + 1, Seq::empty());
                Some((BlockView::List(ListView { span: tokens[index].span, items }), next))
            },
            _ => next_block(bytes, tokens, index + 1),
        }
    }
}

/// The blocks of a document from event `index` on.
pub open spec fn blocks_from(bytes: Seq<u8>, tokens: Seq<Token>, index: int) -> Seq<BlockView>
    decreases tokens.len() - index,
{
    match next_block(bytes, tokens, index) {
        Some((block, next)) => if 0 <= index < next <= tokens.len() {
            seq![block] + blocks_from(bytes, tokens, next)
        } else {
            Seq::empty()
        },
        None => Seq::empty(),
    }
}

/// The views of a sequence of blocks.
pub open spec fn block_views(blocks: Seq<Block>) -> Seq<BlockView> {
    blocks.map_values(|block: Block| block@)
}

/// The views of a sequence of inline elements.
pub open spec fn inline_views(inlines: Seq<Inline>) -> Seq<InlineView> {
    inlines.map_values(|inline: Inline| inline@)
}

/// Reading moves forward, and never past the last event.
pub proof fn lemma_span_until_advances(tokens: Seq<Token>, index: int, until: Closing, span: Span)
    requires
        0 <= index <= tokens.len(),
    ensures
        index <= span_until(tokens, index, until, span).1 <= tokens.len(),
        index < tokens.len() ==> index < span_until(tokens, index, until, span).1,
    decreases tokens.len() - index,
{
    if index < tokens.len() && !closes(tokens[index].kind, until) {
        let start = if span.start == 0 {
            tokens[index].span.start
        } else {
            span.start
        };
        lemma_span_until_advances(
            tokens,
            index + 1,
            until,
            Span { start, end: tokens[index].span.end },
        );
    }
}

/// Reading the inline elements of a heading moves forward, and never past
/// the last event.
pub proof fn lemma_inlines_until_advances(
    tokens: Seq<Token>,
    index: int,
    level: usize,
    found: Seq<InlineView>,
)
    requires
        0 <= index <= tokens.len(),
    ensures
        index <= inlines_until(tokens, index, level, found).1 <= tokens.len(),
        index < tokens.len() ==> index < inlines_until(tokens, index, level, found).1,
    decreases tokens.len() - index,
{
    if index < tokens.len() {
        match tokens[index].kind {
            TokenKind::LinkStart(target) => {
                let (content, next) = span_until(tokens, index + 1, Closing::Link, Span::empty());
                lemma_span_until_advances(tokens, index + 1, Closing::Link, Span::empty());
                let link = LinkView {
                    span: tokens[index].span,
                    content: Literal { span: content },
                    target: target@,
                };
                lemma_inlines_until_advances(
                    tokens,
                    next,
                    level,
                    found.push(InlineView::Link(link)),
                );
            },
            TokenKind::Text => {
                lemma_inlines_until_advances(
                    tokens,
                    index + 1,
                    level,
                    found.push(InlineView::Literal(Literal { span: tokens[index].span })),
                );
            },
            TokenKind::HeadingEnd(end) => {
                if end != level {
                    lemma_inlines_until_advances(tokens, index + 1, level, found);
                }
            },
            _ => {
                lemma_inlines_until_advances(tokens, index + 1, level, found);
            },
        }
    }
}

/// Reading the items of a list moves forward, and never past the last event.
pub proof fn lemma_items_until_advances(tokens: Seq<Token>, index: int, found: Seq<Literal>)
    requires
        0 <= index <= tokens.len(),
    ensures
        index <= items_until(tokens, index, found).1 <= tokens.len(),
        index < tokens.len() ==> index < items_until(tokens, index, found).1,
    decreases tokens.len() - index,
{
    if index < tokens.len() {
        match tokens[index].kind {
            TokenKind::ItemStart => {
                let (item, next) = span_until(tokens, index + 1, Closing::Item, Span::empty());
                lemma_span_until_advances(tokens, index + 1, Closing::Item, Span::empty());
                lemma_items_until_advances(tokens, next, found.push(Literal { span: item }));
            },
            TokenKind::ListEnd(false) => {},
            _ => {
                lemma_items_until_advances(tokens, index + 1, found);
            },
        }
    }
}

/// Whether an event of kind `kind` is the end that `until` names.
fn is_closing(kind: &TokenKind, until: Closing) -> (yes: bool)
    ensures
        yes == closes(*kind, until),
{
    match until {
        Closing::Heading(level) => match kind {
            TokenKind::HeadingEnd(end) => *end == level,
            _ => false,
        },
        Closing::Link => match kind {
            TokenKind::LinkEnd => true,
            _ => false,
        },
        Closing::Item => match kind {
            TokenKind::ItemEnd => true,
            _ => false,
        },
    }
}

/// Reads up to the end `until`: the span of what stands before it, and the
/// index behind it.
fn read_span_until(tokens: &Vec<Token>, from: usize, until: Closing) -> (found: (Span, usize))
    requires
        from <= tokens.len(),
    ensures
        (found.0, found.1 as int) == span_until(tokens@, from as int, until, Span::empty()),
        from <= found.1 <= tokens.len(),
{
    let mut span = Span { start: 0, end: 0 };
    let mut index = from;
    while index < tokens.len()
        invariant
            from <= index <= tokens.len(),
            span_until(tokens@, from as int, until, Span::empty()) == span_until(
                tokens@,
                index as int,
                until,
                span,
            ),
        decreases tokens.len() - index,
    {
        if is_closing(&tokens[index].kind, until) {
            return (span, index + 1);
        }
        if span.start == 0 {
            span.start = tokens[index].span.start;
        }
        span.end = tokens[index].span.end;
        index += 1;
    }
    (span, index)
}

/// Reads the inline elements of a heading of level `level`, and the index
/// behind the heading's end.
fn parse_inlines(tokens: &Vec<Token>, from: usize, level: usize) -> (found: (Vec<Inline>, usize))
    requires
        from <= tokens.len(),
    ensures
        (inline_views(found.0@), found.1 as int) == inlines_until(
            tokens@,
            from as int,
            level,
            Seq::empty(),
        ),
        from <= found.1 <= tokens.len(),
{
    let mut inlines: Vec<Inline> = Vec::new();
    let mut index = from;
    assert(inline_views(inlines@) =~= Seq::empty());
    while index < tokens.len()
        invariant
            from <= index <= tokens.len(),
            inlines_until(tokens@, from as int, level, Seq::empty()) == inlines_until(
                tokens@,
                index as int,
                level,
                inline_views(inlines@),
            ),
        decreases tokens.len() - index,
    {
        let ghost before = inline_views(inlines@);
        match &tokens[index].kind {
            TokenKind::LinkStart(target) => {
                let (content, next) = read_span_until(tokens, index + 1, Closing::Link);
                let link = Link {
                    span: tokens[index].span,
                    content: Literal { span: content },
                    target: target.clone(),
                };
                let inline = Inline::Link(link);
                inlines.push(inline);
                assert(inline_views(inlines@) =~= before.push(inline@));
                index = next;
            },
            TokenKind::Text => {
                let inline = Inline::Literal(Literal { span: tokens[index].span });
                inlines.push(inline);
                assert(inline_views(inlines@) =~= before.push(inline@));
                index += 1;
            },
            TokenKind::HeadingEnd(end) => {
                if *end == level {
                    return (inlines, index + 1);
                }
                index += 1;
            },
            _ => {
                index += 1;
            },
        }
    }
    (inlines, index)
}

/// Reads the items of a list, and the index behind the list's end.
fn parse_items(tokens: &Vec<Token>, from: usize) -> (found: (Vec<Literal>, usize))
    requires
        from <= tokens.len(),
    ensures
        (found.0@, found.1 as int) == items_until(tokens@, from as int, Seq::empty()),
        from <= found.1 <= tokens.len(),
{
    let mut items: Vec<Literal> = Vec::new();
    let mut index = from;
    while index < tokens.len()
        invariant
            from <= index <= tokens.len(),
            items_until(tokens@, from as int, Seq::empty()) == items_until(
                tokens@,
                index as int,
                items@,
            ),
        decreases tokens.len() - index,
    {
        match &tokens[index].kind {
            TokenKind::ItemStart => {
                let (item, next) = read_span_until(tokens, index + 1, Closing::Item);
                items.push(Literal { span: item });
                index = next;
            },
            TokenKind::ListEnd(ordered) => {
                if !*ordered {
                    return (items, index + 1);
                }
                index += 1;
            },
            _ => {
                index += 1;
            },
        }
    }
    (items, index)
}

/// The span of a heading whose events cover `span`.
fn get_heading_extent(source: &str, span: Span) -> (trimmed: Span)
    ensures
        trimmed == heading_span(source.spec_bytes(), span),
{
    let bytes = source.as_bytes();
    if span.start < span.end && span.end <= bytes.len() && bytes[span.end - 1] == 10u8 {
        Span { start: span.start, end: span.end - 1 }
    } else {
        span
    }
}

/// Reads the events of a Markdown document as blocks, one block at a time.
pub struct Parser<'a> {
    source: &'a str,
    tokens: Vec<Token>,
    cursor: usize,
}

impl<'a> Parser<'a> {
    /// The blocks that the parser has yet to give.
    pub closed spec fn remaining(&self) -> Seq<BlockView> {
        blocks_from(self.source.spec_bytes(), self.tokens@, self.cursor as int)
    }

    #[verifier::type_invariant]
    spec fn inv(&self) -> bool {
        self.cursor <= self.tokens@.len()
    }

    /// A parser over the events `tokens` of the document `source`.
    pub fn new(source: &'a str, tokens: Vec<Token>) -> (parser: Parser<'a>)
        ensures
            parser.remaining() == blocks_from(source.spec_bytes(), tokens@, 0),
    {
        Parser { source, tokens, cursor: 0 }
    }

    /// The next block, or `None` when no block is left.
    pub fn next(&mut self) -> (block: Option<Block>)
        ensures
            old(self).remaining().len() == 0 ==> block is None && final(self).remaining().len()
                == 0,
            old(self).remaining().len() > 0 ==> block is Some && block->0@ == old(
                self,
            ).remaining()[0] && final(self).remaining() == old(self).remaining().drop_first(),
    {
        proof {
            use_type_invariant(&*self);
        }
        let ghost bytes = self.source.spec_bytes();
        let ghost from = self.cursor as int;
        let mut index = self.cursor;
        while index < self.tokens.len()
            invariant
                bytes == self.source.spec_bytes(),
                0 <= from <= index <= self.tokens@.len(),
                from == old(self).cursor,
                self.tokens@ == old(self).tokens@,
                self.source == old(self).source,
                next_block(bytes, self.tokens@, from) == next_block(
                    bytes,
                    self.tokens@,
                    index as int,
                ),
            decreases self.tokens.len() - index,
        {
            let span = self.tokens[index].span;
            match &self.tokens[index].kind {
                TokenKind::HeadingStart(level) => {
                    let level = *level;
                    let (inlines, next) = parse_inlines(&self.tokens, index + 1, level);
                    let span = get_heading_extent(self.source, span);
                    let heading = Heading { span, level, inlines };
                    proof {
                        lemma_inlines_until_advances(self.tokens@, index + 1, level, Seq::empty());
                        self.lemma_step(from, BlockView::Heading(heading@), next as int);
                    }
                    self.cursor = next;
                    return Some(Block::Heading(heading));
                },
                TokenKind::ParagraphStart => {
                    proof {
                        self.lemma_step(from, BlockView::Paragraph(Literal { span }), index + 1);
                    }
                    self.cursor = index + 1;
                    return Some(Block::Paragraph(Literal { span }));
                },
                TokenKind::ListStart(first) => {
                    if first.is_none() {
                        let (items, next) = parse_items(&self.tokens, index + 1);
                        let list = List { span, items };
                        proof {
                            lemma_items_until_advances(self.tokens@, index + 1, Seq::empty());
                            self.lemma_step(from, BlockView::List(list@), next as int);
                        }
                        self.cursor = next;
                        return Some(Block::List(list));
                    }
                    index += 1;
                },
                _ => {
                    index += 1;
                },
            }
        }
        self.cursor = index;
        proof {
            assert(next_block(bytes, self.tokens@, index as int) is None);
        }
        None
    }

    /// What the blocks from `from` on are when the first of them is `block`
    /// and ends before `next`.
    proof fn lemma_step(&self, from: int, block: BlockView, next: int)
        requires
            0 <= from < next <= self.tokens@.len(),
            next_block(self.source.spec_bytes(), self.tokens@, from) == Some((block, next)),
        ensures
            blocks_from(self.source.spec_bytes(), self.tokens@, from).len() > 0,
            blocks_from(self.source.spec_bytes(), self.tokens@, from)[0] == block,
            blocks_from(self.source.spec_bytes(), self.tokens@, from).drop_first() == blocks_from(
                self.source.spec_bytes(),
                self.tokens@,
                next,
            ),
    {
        let rest = blocks_from(self.source.spec_bytes(), self.tokens@, next);
        assert((seq![block] + rest).drop_first() =~= rest);
    }

    /// All blocks that are left, in order.
    pub fn collect(self) -> (blocks: Vec<Block>)
        ensures
            block_views(blocks@) == self.remaining(),
    {
        let mut parser = self;
        let mut blocks: Vec<Block> = Vec::new();
        let ghost all = parser.remaining();
        assert(block_views(blocks@) =~= Seq::empty());
        loop
            invariant
                all == block_views(blocks@) + parser.remaining(),
                all == self.remaining(),
            decreases parser.remaining().len(),
        {
            let ghost before = block_views(blocks@);
            match parser.next() {
                Some(block) => {
                    blocks.push(block);
                    assert(block_views(blocks@) =~= before.push(block@));
                },
                None => {
                    assert(before + parser.remaining() =~= before);
                    return blocks;
                },
            }
            assert(all =~= block_views(blocks@) + parser.remaining());
        }
    }
}

} // verus!
