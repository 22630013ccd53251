use notabene::changelog::v2::parsed::{Changelog, Changes, InvalidSpan, Release, Unreleased};
use notabene::changelog::{Changelog as _, Changes as _, Release as _, Unreleased as _};
use notabene::ir;
use notabene::span::{Span, Spanned};

fn text(start: usize, end: usize, value: &str) -> Spanned<&str> {
    Spanned::new(Span::new(start, end), value)
}

fn group<'a>(heading: usize, kind: &'a str, items: &[&'a str]) -> ir::Changes<'a> {
    ir::Changes {
        heading_span: Span::new(heading, heading + 1),
        kind: text(heading, heading + 1, kind),
        changes: items.iter().map(|item| text(0, 0, item)).collect(),
    }
}

fn sections() -> ir::Changelog<'static> {
    ir::Changelog {
        sections: vec![
            ir::Section::InvalidTitle(ir::InvalidTitle {
                heading_span: Span::new(1, 2),
            }),
            ir::Section::Title(text(3, 4, "First")),
            ir::Section::Title(text(5, 6, "Second")),
            ir::Section::Release(ir::Release {
                heading_span: Span::new(7, 8),
                version: text(7, 8, "1.0.0"),
                url: Some("r".to_string()),
                date: Some(text(9, 10, "2025-01-01")),
                yanked: Some(text(11, 12, "[YANKED]")),
                changes: vec![group(13, "Added", &["a", "b"]), group(14, "Fixed", &[])],
            }),
            ir::Section::Unreleased(ir::Unreleased {
                heading_span: Span::new(15, 16),
                url: Some("u".to_string()),
                changes: vec![group(17, "Removed", &["c"])],
            }),
            ir::Section::Invalid(ir::InvalidSection {
                heading_span: Span::new(18, 19),
            }),
            ir::Section::Unreleased(ir::Unreleased {
                heading_span: Span::new(20, 21),
                url: None,
                changes: vec![],
            }),
            ir::Section::Release(ir::Release {
                heading_span: Span::new(22, 23),
                version: text(22, 23, "0.9.0"),
                url: None,
                date: None,
                yanked: Some(text(24, 25, "[yanked]")),
                changes: vec![],
            }),
        ],
        broken_links: vec![Span::new(26, 27), Span::new(28, 29)],
    }
}

#[test]
fn test_changelog_from_sections() {
    let sections = sections();
    let changelog = Changelog::from(&sections);
    // The first title is the title; the second is dropped.
    assert_eq!(changelog.title, Some(text(3, 4, "First")));
    assert_eq!(
        changelog.unreleased,
        Some(Unreleased {
            heading_span: Span::new(15, 16),
            url: Some(text(0, 0, "u")),
            changes: vec![Changes {
                heading_span: Span::new(17, 18),
                kind: text(17, 18, "Removed"),
                items: vec![text(0, 0, "c")],
            }],
        })
    );
    assert_eq!(
        changelog.releases,
        vec![
            Release {
                heading_span: Span::new(7, 8),
                version: text(7, 8, "1.0.0"),
                url: Some(text(0, 0, "r")),
                date: Some(text(9, 10, "2025-01-01")),
                yanked: Some(text(11, 12, "[YANKED]")),
                changes: vec![
                    Changes {
                        heading_span: Span::new(13, 14),
                        kind: text(13, 14, "Added"),
                        items: vec![text(0, 0, "a"), text(0, 0, "b")],
                    },
                    Changes {
                        heading_span: Span::new(14, 15),
                        kind: text(14, 15, "Fixed"),
                        items: vec![],
                    },
                ],
            },
            Release {
                heading_span: Span::new(22, 23),
                version: text(22, 23, "0.9.0"),
                url: None,
                date: None,
                yanked: Some(text(24, 25, "[yanked]")),
                changes: vec![],
            },
        ]
    );
    assert_eq!(
        changelog.invalid_spans,
        vec![
            InvalidSpan::InvalidTitle(Span::new(1, 2)),
            InvalidSpan::InvalidHeading(Span::new(18, 19)),
            InvalidSpan::DuplicateUnreleased(Span::new(20, 21)),
            InvalidSpan::InvalidLinkReference(Span::new(26, 27)),
            InvalidSpan::InvalidLinkReference(Span::new(28, 29)),
        ]
    );
    let empty = ir::Changelog::default();
    assert_eq!(
        Changelog::from(&empty),
        Changelog {
            title: None,
            unreleased: None,
            releases: vec![],
            invalid_spans: vec![],
        }
    );
}

#[test]
fn test_sections_to_owned() {
    let sections = sections();
    let changelog = Changelog::from(&sections);
    assert_eq!(changelog.title(), Some("First"));
    assert_eq!(changelog.unreleased().unwrap().url(), Some("u"));
    assert_eq!(changelog.releases()[0].version(), "1.0.0");
    assert_eq!(changelog.releases()[0].date(), Some("2025-01-01"));
    assert!(changelog.releases()[0].yanked());
    assert!(!changelog.releases()[1].yanked());
    assert_eq!(changelog.releases()[0].changes()[0].kind(), "Added");
    assert_eq!(changelog.releases()[0].changes()[0].items(), vec!["a", "b"]);

    let owned = changelog.to_owned();
    assert_eq!(owned.title(), Some("First"));
    let unreleased = owned.unreleased().unwrap();
    assert_eq!(unreleased.url(), Some("u"));
    assert_eq!(unreleased.changes()[0].kind(), "Removed");
    assert_eq!(unreleased.changes()[0].items(), vec!["c"]);
    let releases = owned.releases();
    assert_eq!(releases.len(), 2);
    assert_eq!(releases[0].version(), "1.0.0");
    assert_eq!(releases[0].url(), Some("r"));
    assert_eq!(releases[0].date(), Some("2025-01-01"));
    assert!(releases[0].yanked());
    assert_eq!(releases[0].changes()[1].kind(), "Fixed");
    assert_eq!(releases[0].changes()[1].items(), Vec::<&str>::new());
    assert_eq!(releases[1].url(), None);
    assert_eq!(releases[1].date(), None);
    assert!(!releases[1].yanked());
}
