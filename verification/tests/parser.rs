use notabene::changelog::parsed::{
    InvalidSpan, ParsedChangelog, ParsedChanges, ParsedRelease, ParsedUnreleased,
};
use notabene::changelog::{Changelog, Changes, Release, Unreleased};
use notabene::markdown::{Token, TokenKind};
use notabene::parse;
use notabene::parser::{parse_tokens, text_at};
use notabene::span::{Span, Spanned};

fn spanned(start: usize, end: usize, value: &str) -> Spanned<&str> {
    Spanned::new(Span::new(start, end), value)
}

/// Every text of the changelog is what its span covers in the source.
fn assert_faithful(changelog: &ParsedChangelog) {
    let source = changelog.source;
    let check = |text: &Spanned<&str>| {
        assert_eq!(&source[text.span.start..text.span.end], text.value);
    };
    let check_changes = |changes: &Vec<ParsedChanges>| {
        for group in changes {
            check(&group.kind);
            group.items.iter().for_each(check);
        }
    };
    changelog.title.iter().for_each(check);
    if let Some(unreleased) = &changelog.unreleased {
        check_changes(&unreleased.changes);
    }
    for release in &changelog.releases {
        check(&release.version);
        release.date.iter().for_each(check);
        release.yanked.iter().for_each(check);
        check_changes(&release.changes);
    }
}

#[test]
fn test_parse() {
    let source = "
# Title 1
# Title 2

## [Unreleased][]

### Removed

* Remove foo

## [1.0.0] - 2025-01-01

### Added

* Add foo
* Add bar

## [0.1.0] - 2024-01-01

### Added

* Add baz
* Add quux

## [broken] - 2024-01-01

[Unreleased]: https://example.org/unreleased
[1.0.0]: https://example.org/release/1.0.0
[0.1.0]: https://example.org/release/0.1.0
        ";
    let changelog = parse(source);
    assert_eq!(
        changelog,
        ParsedChangelog {
            source,
            title: Some(spanned(3, 10, "Title 1")),
            unreleased: Some(ParsedUnreleased {
                heading_span: Span::new(22, 39),
                url: Some("https://example.org/unreleased".to_string()),
                changes: vec![ParsedChanges {
                    heading_span: Span::new(41, 52),
                    kind: spanned(45, 52, "Removed"),
                    items: vec![spanned(56, 66, "Remove foo")],
                }],
            }),
            releases: vec![
                ParsedRelease {
                    heading_span: Span::new(68, 91),
                    version: spanned(72, 77, "1.0.0"),
                    url: Some("https://example.org/release/1.0.0".to_string()),
                    date: Some(spanned(81, 91, "2025-01-01")),
                    yanked: None,
                    changes: vec![ParsedChanges {
                        heading_span: Span::new(93, 102),
                        kind: spanned(97, 102, "Added"),
                        items: vec![spanned(106, 113, "Add foo"), spanned(116, 123, "Add bar")],
                    }],
                },
                ParsedRelease {
                    heading_span: Span::new(125, 148),
                    version: spanned(129, 134, "0.1.0"),
                    url: Some("https://example.org/release/0.1.0".to_string()),
                    date: Some(spanned(138, 148, "2024-01-01")),
                    yanked: None,
                    changes: vec![ParsedChanges {
                        heading_span: Span::new(150, 159),
                        kind: spanned(154, 159, "Added"),
                        items: vec![spanned(163, 170, "Add baz"), spanned(173, 181, "Add quux")],
                    }],
                },
            ],
            invalid_spans: vec![
                InvalidSpan::DuplicateTitle(Span::new(13, 20)),
                InvalidSpan::InvalidSectionHeading(Span::new(183, 207)),
                InvalidSpan::UndefinedLinkReference(Span::new(186, 194)),
            ],
        }
    );
    assert_faithful(&changelog);
    assert_eq!(ParsedChangelog::parse(source), changelog);
}

#[test]
fn test_parse_end_to_end() {
    let source = "# Changelog

## [Unreleased]

### Added

* Add foo

[Unreleased]: https://example.org/
";
    let changelog = parse(source);
    assert_eq!(changelog.title(), Some("Changelog"));
    let unreleased = changelog.unreleased().unwrap();
    assert_eq!(unreleased.url(), Some("https://example.org/"));
    assert_eq!(unreleased.changes().len(), 1);
    assert_eq!(unreleased.changes()[0].kind(), "Added");
    assert_eq!(unreleased.changes()[0].items(), vec!["Add foo"]);
    assert_eq!(changelog.releases().len(), 0);
    assert_eq!(changelog.invalid_spans, vec![]);
    assert_faithful(&changelog);
}

#[test]
fn test_parse_broken_reference() {
    let source = "# Changelog

## [Unreleased]

### Added

* Add foo ([#12345])

[Unreleased]: https://example.org/
";
    let changelog = parse(source);
    assert_eq!(
        changelog.invalid_spans,
        vec![InvalidSpan::UndefinedLinkReference(Span::new(52, 60))]
    );
    assert_eq!(&source[52..60], "[#12345]");
    let unreleased = changelog.unreleased().unwrap();
    assert_eq!(unreleased.changes()[0].items(), vec!["Add foo ([#12345])"]);
    assert_faithful(&changelog);
}

#[test]
fn test_parse_duplicate_title() {
    let source = "# A\n# B\n";
    let changelog = parse(source);
    assert_eq!(changelog.title, Some(spanned(2, 3, "A")));
    assert_eq!(
        changelog.invalid_spans,
        vec![InvalidSpan::DuplicateTitle(Span::new(6, 7))]
    );
    assert_eq!(&source[6..7], "B");
}

#[test]
fn test_parse_invalid_title() {
    let source = "# [A](b)\n\n# *x* y\n\n# C\n";
    let changelog = parse(source);
    assert_eq!(changelog.title, Some(spanned(21, 22, "C")));
    assert_eq!(
        changelog.invalid_spans,
        vec![
            InvalidSpan::InvalidTitle(Span::new(0, 8)),
            InvalidSpan::InvalidTitle(Span::new(10, 17)),
        ]
    );
}

#[test]
fn test_parse_duplicate_unreleased() {
    let source = "## [Unreleased](a)\n\n### Added\n\n* x\n\n## [Unreleased](b)\n\n### Fixed\n\n* y\n";
    let changelog = parse(source);
    let unreleased = changelog.unreleased().unwrap();
    assert_eq!(unreleased.url(), Some("a"));
    assert_eq!(unreleased.changes().len(), 1);
    assert_eq!(unreleased.changes()[0].kind(), "Added");
    assert_eq!(
        changelog.invalid_spans,
        vec![InvalidSpan::DuplicateUnreleased(Span::new(36, 54))]
    );
    assert_eq!(&source[36..54], "## [Unreleased](b)");
}

#[test]
fn test_parse_release_heading() {
    let changelog = parse("## [1.6.8](u) - 2038-01-19 [YANKED] and more\n");
    let release = &changelog.releases[0];
    assert_eq!(release.heading_span, Span::new(0, 44));
    assert_eq!(release.version(), "1.6.8");
    assert_eq!(release.url(), Some("u"));
    assert_eq!(release.date, Some(spanned(16, 26, "2038-01-19")));
    assert_eq!(release.yanked, Some(spanned(27, 35, "[YANKED]")));
    assert!(release.yanked());
    assert_eq!(release.changes().len(), 0);

    // Only the hyphen: no date, no yanked marker.
    let changelog = parse("## [1.0.0](u) -\n");
    assert_eq!(changelog.releases[0].date, None);
    assert_eq!(changelog.releases[0].yanked, None);
    assert!(!changelog.releases[0].yanked());

    // The first word is passed over, whatever it is.
    let changelog = parse("## [1.0.0](u) 2025-01-01 x\n");
    assert_eq!(changelog.releases[0].date, Some(spanned(25, 26, "x")));
    assert_eq!(changelog.releases[0].yanked, None);

    // A link alone that is not named "Unreleased" starts nothing.
    let changelog = parse("## [1.0.0](u)\n");
    assert_eq!(changelog.releases.len(), 0);
    assert_eq!(
        changelog.invalid_spans,
        vec![InvalidSpan::InvalidSectionHeading(Span::new(0, 13))]
    );
    let changelog = parse("## Unreleased\n");
    assert!(changelog.unreleased.is_none());
    assert_eq!(
        changelog.invalid_spans,
        vec![InvalidSpan::InvalidSectionHeading(Span::new(0, 13))]
    );
}

#[test]
fn test_parse_changes() {
    // A list before a heading is dropped, a heading that is more than text
    // opens no group and drops the lists behind it, and the run ends at the
    // first block that is neither a third-level heading nor a list.
    let source = "## [Unreleased](u)

* dropped

### Added

* a
* b

### *Odd* one

* dropped too

### Fixed

### Removed

* c

text

### Security

* d
";
    let changelog = parse(source);
    let unreleased = changelog.unreleased().unwrap();
    let kinds: Vec<&str> = unreleased.changes().iter().map(|group| group.kind()).collect();
    assert_eq!(kinds, vec!["Added", "Fixed", "Removed"]);
    assert_eq!(unreleased.changes()[0].items(), vec!["a", "b"]);
    assert_eq!(unreleased.changes()[1].items(), Vec::<&str>::new());
    assert_eq!(unreleased.changes()[2].items(), vec!["c"]);
    assert_eq!(changelog.invalid_spans, vec![]);
    assert_faithful(&changelog);
}

#[test]
fn test_parse_is_total() {
    for source in [
        "",
        "\n",
        "#",
        "##",
        "## []() -",
        "\u{0}\u{1}\u{fffd}\u{7f}",
        "# \u{e9}t\u{e9}\n## [\u{1f600}](u) \u{2003}-\u{a0}2025-01-01\n### \u{fc}\n* \u{df}\n",
        "> # quoted\n> ## [Unreleased](u)\n> ### Added\n> * x\n",
        "* a\n  * b\n    * c\n      * d\n",
        "[a]: b\n[a]\n[c]\n![d]\n",
        "# A\r\n\r\n## [1.0.0](u) - 2025-01-01\r\n\r\n### Added\r\n\r\n* x\r\n",
    ] {
        let changelog = parse(source);
        assert_eq!(changelog.source, source);
        assert_faithful(&changelog);
    }
    let nested = "> ".repeat(200) + "# deep";
    assert_faithful(&parse(&nested));
}

#[test]
fn test_parse_tokens_checks_the_spans() {
    // Spans that do not lie within the source, or that split a character,
    // give no text: the heading is invalid, not the parser.
    let token = |kind, start, end| Token {
        kind,
        span: Span::new(start, end),
    };
    let source = "# \u{e9}";
    let changelog = parse_tokens(
        source,
        vec![
            token(TokenKind::HeadingStart(1), 0, 4),
            token(TokenKind::Text, 3, 4),
            token(TokenKind::HeadingEnd(1), 0, 4),
            token(TokenKind::HeadingStart(2), 0, 9),
            token(TokenKind::LinkStart("u".to_string()), 0, 9),
            token(TokenKind::Text, 7, 9),
            token(TokenKind::LinkEnd, 0, 9),
            token(TokenKind::HeadingEnd(2), 0, 9),
        ],
        vec![Span::new(1, 2)],
    );
    assert_eq!(changelog.title, None);
    assert_eq!(
        changelog.invalid_spans,
        vec![
            InvalidSpan::InvalidTitle(Span::new(0, 4)),
            InvalidSpan::InvalidSectionHeading(Span::new(0, 9)),
            InvalidSpan::UndefinedLinkReference(Span::new(1, 2)),
        ]
    );
    assert_eq!(text_at(source, Span::new(2, 4)), Some(spanned(2, 4, "\u{e9}")));
    assert_eq!(text_at(source, Span::new(3, 4)), None);
    assert_eq!(text_at(source, Span::new(2, 5)), None);
    assert_eq!(text_at(source, Span::new(2, 1)), None);
}

#[test]
fn test_to_owned() {
    let source = "# T\n\n## [Unreleased](u)\n\n### Added\n\n* a\n\n## [1.0.0](r) - 2025-01-01 [YANKED]\n\n### Fixed\n\n* b\n* c\n\n## [0.9.0](q) - 2024-01-01 [yanked]\n";
    let owned = parse(source).to_owned();
    assert_eq!(owned.title(), Some("T"));
    let unreleased = owned.unreleased().unwrap();
    assert_eq!(unreleased.url(), Some("u"));
    assert_eq!(unreleased.changes()[0].kind(), "Added");
    assert_eq!(unreleased.changes()[0].items(), vec!["a"]);
    let releases = owned.releases();
    assert_eq!(releases.len(), 2);
    assert_eq!(releases[0].version(), "1.0.0");
    assert_eq!(releases[0].url(), Some("r"));
    assert_eq!(releases[0].date(), Some("2025-01-01"));
    assert!(releases[0].yanked());
    assert_eq!(releases[0].changes()[0].kind(), "Fixed");
    assert_eq!(releases[0].changes()[0].items(), vec!["b", "c"]);
    assert!(!releases[1].yanked());
    assert_eq!(releases[1].changes().len(), 0);
}
