//! A simplified Markdown document: a sequence of [`Block`]s, each with the
//! span of the source that it covers.
mod block;
mod parser;

pub use block::{
    Block, BlockView, Heading, HeadingView, Inline, InlineView, Link, LinkView, List, ListView,
    Literal,
};
pub use parser::{
    block_views, blocks_from, closes, heading_span, inline_views, inlines_until, items_until,
    next_block, span_until, Closing, Parser,
};
