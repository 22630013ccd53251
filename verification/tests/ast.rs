use notabene::ast::{Block, Heading, Inline, Link, List, Literal, Parser};
use notabene::markdown::{tokenize, Token, TokenKind};
use notabene::span::Span;

fn blocks(source: &str) -> Vec<Block> {
    let source = source.trim();
    let tokens = tokenize(source);
    Parser::new(source, tokens.tokens).collect()
}

fn literal(start: usize, end: usize) -> Inline {
    Inline::Literal(Literal::new(Span::new(start, end)))
}

fn link(span: (usize, usize), content: (usize, usize), target: &str) -> Inline {
    Inline::Link(Link {
        span: Span::new(span.0, span.1),
        content: Literal::new(Span::new(content.0, content.1)),
        target: target.to_string(),
    })
}

fn heading(span: (usize, usize), level: usize, inlines: Vec<Inline>) -> Block {
    Block::Heading(Heading {
        span: Span::new(span.0, span.1),
        level,
        inlines,
    })
}

#[test]
fn test_parse_h1() {
    assert_eq!(
        blocks("# Changelog"),
        vec![heading((0, 11), 1, vec![literal(2, 11)])]
    );
    assert_eq!(
        blocks(
            "
Changelog
=========
        "
        ),
        vec![heading((0, 19), 1, vec![literal(0, 9)])]
    );
}

#[test]
fn test_parse_h2() {
    assert_eq!(
        blocks(
            "
## [Unreleased]

[Unreleased]: https://example.org/
        "
        ),
        vec![heading(
            (0, 15),
            2,
            vec![link((3, 15), (4, 14), "https://example.org/")]
        )]
    );
    assert_eq!(
        blocks(
            "
[Unreleased]
------------

[Unreleased]: https://example.org/
        "
        ),
        vec![heading(
            (0, 25),
            2,
            vec![link((0, 12), (1, 11), "https://example.org/")]
        )]
    );
    assert_eq!(
        blocks("## [Unreleased](https://example.org/)"),
        vec![heading(
            (0, 37),
            2,
            vec![link((3, 37), (4, 14), "https://example.org/")]
        )]
    );
    assert_eq!(
        blocks(
            "
[Unreleased](https://example.org/)
----------------------------------
"
        ),
        vec![heading(
            (0, 69),
            2,
            vec![link((0, 34), (1, 11), "https://example.org/")]
        )]
    );
    assert_eq!(
        blocks(
            "
## [1.6.8] - 2038-01-19 [YANKED]

[1.6.8]: https://example.org/
"
        ),
        vec![heading(
            (0, 32),
            2,
            vec![
                link((3, 10), (4, 9), "https://example.org/"),
                literal(10, 32)
            ]
        )]
    );
    assert_eq!(
        blocks(
            "
[1.6.8] - 2038-01-19 [YANKED]
-----------------------------

[1.6.8]: https://example.org/
"
        ),
        vec![heading(
            (0, 59),
            2,
            vec![
                link((0, 7), (1, 6), "https://example.org/"),
                literal(7, 29)
            ]
        )]
    );
    assert_eq!(
        blocks("## [1.6.8](https://example.org/) - 2038-01-19 [YANKED]"),
        vec![heading(
            (0, 54),
            2,
            vec![
                link((3, 32), (4, 9), "https://example.org/"),
                literal(32, 54)
            ]
        )]
    );
    assert_eq!(
        blocks(
            "
[1.6.8](https://example.org/) - 2038-01-19 [YANKED]
---------------------------------------------------
"
        ),
        vec![heading(
            (0, 103),
            2,
            vec![
                link((0, 29), (1, 6), "https://example.org/"),
                literal(29, 51)
            ]
        )]
    );
}

#[test]
fn test_parse_h3() {
    assert_eq!(
        blocks("### Added"),
        vec![heading((0, 9), 3, vec![literal(4, 9)])]
    );
}

#[test]
fn test_parse_paragraph() {
    assert_eq!(
        blocks(
            "
Lorem ipsum dolor sit amet, consectetur adipiscing elit, sed do eiusmod tempor incididunt ut labore et dolore magna aliqua.

Ut enim ad minim veniam, quis nostrud exercitation ullamco laboris nisi ut aliquip ex ea commodo consequat.
        "
        ),
        vec![
            Block::Paragraph(Literal::new(Span::new(0, 124))),
            Block::Paragraph(Literal::new(Span::new(125, 232))),
        ]
    );
}

#[test]
fn test_parse_list() {
    assert_eq!(
        blocks(
            "
* Lorem ipsum dolor sit amet
* Consectetur adipiscing elit
* Sed do eiusmod tempor incididunt ut labore et dolore magna aliqua
        "
        ),
        vec![Block::List(List {
            span: Span::new(0, 126),
            items: vec![
                Literal::new(Span::new(2, 28)),
                Literal::new(Span::new(31, 58)),
                Literal::new(Span::new(61, 126)),
            ],
        })]
    );
}

#[test]
fn test_heading_span_leaves_out_the_line_feed() {
    // The tokenizer counts the line feed that ends a heading to the heading.
    let source = "# Changelog\n\ntext";
    let tokens = tokenize(source).tokens;
    assert_eq!(
        tokens[0],
        Token {
            kind: TokenKind::HeadingStart(1),
            span: Span::new(0, 12)
        }
    );
    assert_eq!(
        Parser::new(source, tokens).collect(),
        vec![
            heading((0, 11), 1, vec![literal(2, 11)]),
            Block::Paragraph(Literal::new(Span::new(13, 17))),
        ]
    );
}

#[test]
fn test_parser_gives_one_block_at_a_time() {
    let source = "# A\n\ntext\n\n* x\n";
    let mut parser = Parser::new(source, tokenize(source).tokens);
    assert_eq!(parser.next(), Some(heading((0, 3), 1, vec![literal(2, 3)])));
    assert_eq!(
        parser.next(),
        Some(Block::Paragraph(Literal::new(Span::new(5, 10))))
    );
    assert_eq!(
        parser.next(),
        Some(Block::List(List {
            span: Span::new(11, 15),
            items: vec![Literal::new(Span::new(13, 14))],
        }))
    );
    assert_eq!(parser.next(), None);
    assert_eq!(parser.next(), None);
}

#[test]
fn test_blocks_from_given_tokens() {
    // An ordered list and what it holds is no block; a heading reads up to
    // the end of a heading of its own level.
    let token = |kind, start, end| Token {
        kind,
        span: Span::new(start, end),
    };
    let tokens = vec![
        token(TokenKind::ListStart(Some(1)), 0, 5),
        token(TokenKind::ItemStart, 0, 5),
        token(TokenKind::Text, 3, 4),
        token(TokenKind::ItemEnd, 0, 5),
        token(TokenKind::ListEnd(true), 0, 5),
        token(TokenKind::HeadingStart(2), 5, 20),
        token(TokenKind::Text, 8, 10),
        token(TokenKind::HeadingEnd(3), 5, 20),
        token(TokenKind::LinkStart("u".to_string()), 10, 16),
        token(TokenKind::Other, 11, 12),
        token(TokenKind::Text, 12, 15),
        token(TokenKind::LinkEnd, 10, 16),
        token(TokenKind::HeadingEnd(2), 5, 20),
        token(TokenKind::Text, 20, 21),
    ];
    let source = "1. x\n## ab[*cde*] ...";
    assert_eq!(
        Parser::new(source, tokens).collect(),
        vec![heading(
            (5, 20),
            2,
            vec![literal(8, 10), link((10, 16), (11, 15), "u")]
        )]
    );
    assert_eq!(Parser::new("", vec![]).collect(), vec![]);
}

#[test]
fn test_tokenize() {
    let tokens = tokenize("* [a](b)\n\n[c]\n");
    let kinds: Vec<TokenKind> = tokens.tokens.into_iter().map(|token| token.kind).collect();
    assert_eq!(
        kinds,
        vec![
            TokenKind::ListStart(None),
            TokenKind::ItemStart,
            TokenKind::LinkStart("b".to_string()),
            TokenKind::Text,
            TokenKind::LinkEnd,
            TokenKind::ItemEnd,
            TokenKind::ListEnd(false),
            TokenKind::ParagraphStart,
            TokenKind::Text,
            TokenKind::Other,
        ]
    );
    assert_eq!(tokens.broken_links, vec![Span::new(10, 13)]);
    let empty = tokenize("");
    assert_eq!(empty.tokens, vec![]);
    assert_eq!(empty.broken_links, vec![]);
}
