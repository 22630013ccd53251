use notabene::changelog::parsed::{
    InvalidSpan, ParsedChangelog, ParsedChanges, ParsedRelease, ParsedUnreleased,
};
use notabene::linter::check::Check;
use notabene::linter::checks::{
    DuplicateChangeType, DuplicateVersion, EmptySection, InvalidReleaseOrder, MissingTitle,
};
use notabene::linter::checks;
use notabene::span::{Span, Spanned};
use notabene::{parse, Diagnostic, Linter, Rule, RuleSet};

fn lint(rule: Rule, changelog: &ParsedChangelog) -> Vec<Diagnostic> {
    let ruleset = RuleSet::from([rule]);
    let linter = Linter::new(&ruleset);
    linter.lint(changelog)
}

fn at(rule: Rule, start: usize, end: usize) -> Diagnostic {
    Diagnostic::new(rule, Some(Span::new(start, end)))
}

fn release_dated(date: &'static str) -> ParsedRelease<'static> {
    ParsedRelease {
        date: Some(Spanned::new(Span::default(), date)),
        ..Default::default()
    }
}

fn release_versioned(
    heading: usize,
    version: &'static str,
    date: Option<&'static str>,
) -> ParsedRelease<'static> {
    ParsedRelease {
        heading_span: Span::new(heading, heading + 1),
        version: Spanned::new(Span::default(), version),
        date: date.map(|date| Spanned::new(Span::default(), date)),
        ..Default::default()
    }
}

fn changes(kind: &'static str, span: Span) -> ParsedChanges<'static> {
    ParsedChanges {
        kind: Spanned::new(span, kind),
        ..Default::default()
    }
}

#[test]
fn test_missing_title() {
    let changelog = ParsedChangelog::default();
    assert_eq!(
        lint(Rule::MissingTitle, &changelog),
        vec![Diagnostic::new(Rule::MissingTitle, None)]
    );

    let changelog = ParsedChangelog {
        title: Some(Spanned::<&str>::default()),
        ..Default::default()
    };
    assert_eq!(lint(Rule::MissingTitle, &changelog), vec![]);
}

#[test]
fn structure_test_invalid_title() {
    let changelog = ParsedChangelog::default();
    assert_eq!(lint(Rule::InvalidTitle, &changelog), vec![]);

    let changelog = ParsedChangelog {
        invalid_spans: vec![InvalidSpan::InvalidTitle(Span::new(1, usize::MAX))],
        ..Default::default()
    };
    assert_eq!(
        lint(Rule::InvalidTitle, &changelog),
        vec![at(Rule::InvalidTitle, 1, usize::MAX)]
    );
}

#[test]
fn content_test_invalid_title() {
    let changelog = ParsedChangelog::default();
    assert_eq!(lint(Rule::InvalidTitle, &changelog), vec![]);

    let changelog = ParsedChangelog {
        invalid_spans: vec![InvalidSpan::InvalidTitle(Span::new(1, usize::MAX))],
        ..Default::default()
    };
    assert_eq!(
        lint(Rule::InvalidTitle, &changelog),
        vec![at(Rule::InvalidTitle, 1, usize::MAX)]
    );
}

#[test]
fn test_duplicate_title() {
    let changelog = ParsedChangelog::default();
    assert_eq!(lint(Rule::DuplicateTitle, &changelog), vec![]);

    let changelog = ParsedChangelog {
        invalid_spans: vec![InvalidSpan::DuplicateTitle(Span::new(1, usize::MAX))],
        ..Default::default()
    };
    assert_eq!(
        lint(Rule::DuplicateTitle, &changelog),
        vec![at(Rule::DuplicateTitle, 1, usize::MAX)]
    );
}

#[test]
fn structure_test_invalid_section() {
    let changelog = ParsedChangelog::default();
    assert_eq!(lint(Rule::InvalidSectionHeading, &changelog), vec![]);

    let changelog = ParsedChangelog {
        invalid_spans: vec![InvalidSpan::InvalidSectionHeading(Span::new(
            1,
            usize::MAX,
        ))],
        ..Default::default()
    };
    assert_eq!(
        lint(Rule::InvalidSectionHeading, &changelog),
        vec![at(Rule::InvalidSectionHeading, 1, usize::MAX)]
    );
}

#[test]
fn content_test_invalid_section() {
    let changelog = ParsedChangelog::default();
    assert_eq!(lint(Rule::InvalidSectionHeading, &changelog), vec![]);

    let changelog = ParsedChangelog {
        invalid_spans: vec![InvalidSpan::InvalidSectionHeading(Span::new(
            1,
            usize::MAX,
        ))],
        ..Default::default()
    };
    assert_eq!(
        lint(Rule::InvalidSectionHeading, &changelog),
        vec![at(Rule::InvalidSectionHeading, 1, usize::MAX)]
    );
}

#[test]
fn test_unreleased_not_first() {
    let changelog = ParsedChangelog::default();
    assert_eq!(lint(Rule::InvalidUnreleasedPosition, &changelog), vec![]);

    let changelog = ParsedChangelog {
        invalid_spans: vec![InvalidSpan::InvalidUnreleasedPosition(Span::new(
            1,
            usize::MAX,
        ))],
        ..Default::default()
    };
    assert_eq!(
        lint(Rule::InvalidUnreleasedPosition, &changelog),
        vec![at(Rule::InvalidUnreleasedPosition, 1, usize::MAX)]
    );
}

#[test]
fn test_missing_unreleased() {
    let changelog = ParsedChangelog::default();
    assert_eq!(
        lint(Rule::MissingUnreleased, &changelog),
        vec![Diagnostic::new(Rule::MissingUnreleased, None)]
    );

    let changelog = ParsedChangelog {
        unreleased: Some(ParsedUnreleased::default()),
        ..Default::default()
    };
    assert_eq!(lint(Rule::MissingUnreleased, &changelog), vec![]);
}

#[test]
fn test_duplicate_unreleased() {
    let changelog = ParsedChangelog::default();
    assert_eq!(lint(Rule::DuplicateUnreleased, &changelog), vec![]);

    let changelog = ParsedChangelog {
        invalid_spans: vec![InvalidSpan::DuplicateUnreleased(Span::new(
            1,
            usize::MAX,
        ))],
        ..Default::default()
    };
    assert_eq!(
        lint(Rule::DuplicateUnreleased, &changelog),
        vec![at(Rule::DuplicateUnreleased, 1, usize::MAX)]
    );
}

#[test]
fn test_link_reference_does_not_exist() {
    let changelog = ParsedChangelog::default();
    assert_eq!(lint(Rule::UndefinedLinkReference, &changelog), vec![]);

    let changelog = ParsedChangelog {
        invalid_spans: vec![InvalidSpan::UndefinedLinkReference(Span::new(
            1,
            usize::MAX,
        ))],
        ..Default::default()
    };
    assert_eq!(
        lint(Rule::UndefinedLinkReference, &changelog),
        vec![at(Rule::UndefinedLinkReference, 1, usize::MAX)]
    );
}

#[test]
fn test_empty_section() {
    let changelog = ParsedChangelog::default();
    assert_eq!(lint(Rule::EmptySection, &changelog), vec![]);

    // ParsedUnreleased with no changes.
    let changelog = ParsedChangelog {
        unreleased: Some(ParsedUnreleased::default()),
        ..Default::default()
    };
    assert_eq!(lint(Rule::EmptySection, &changelog), vec![]);

    // ParsedUnreleased with empty change section.
    let changelog = ParsedChangelog {
        unreleased: Some(ParsedUnreleased {
            changes: vec![
                ParsedChanges {
                    kind: Spanned::new(Span::new(0, 0), "Added"),
                    items: vec![Spanned::new(Span::new(0, 0), "Add foo")],
                    ..Default::default()
                },
                // Empty changes.
                ParsedChanges {
                    heading_span: Span::new(1, usize::MAX),
                    ..Default::default()
                },
            ],
            ..Default::default()
        }),
        ..Default::default()
    };
    assert_eq!(
        lint(Rule::EmptySection, &changelog),
        vec![at(Rule::EmptySection, 1, usize::MAX)]
    );

    // ParsedRelease with no changes.
    let changelog = ParsedChangelog {
        releases: vec![ParsedRelease {
            heading_span: Span::new(1, usize::MAX),
            ..Default::default()
        }],
        ..Default::default()
    };
    assert_eq!(
        lint(Rule::EmptySection, &changelog),
        vec![at(Rule::EmptySection, 1, usize::MAX)]
    );

    // ParsedRelease with empty change section.
    let changelog = ParsedChangelog {
        releases: vec![ParsedRelease {
            changes: vec![
                ParsedChanges {
                    kind: Spanned::new(Span::new(0, 0), "Added"),
                    items: vec![Spanned::new(Span::new(0, 0), "Add foo")],
                    ..Default::default()
                },
                // Empty changes.
                ParsedChanges {
                    heading_span: Span::new(1, usize::MAX),
                    ..Default::default()
                },
            ],
            ..Default::default()
        }],
        ..Default::default()
    };
    assert_eq!(
        lint(Rule::EmptySection, &changelog),
        vec![at(Rule::EmptySection, 1, usize::MAX)]
    );
}

fn changelog_with_kinds(first: &'static str, second: &'static str) -> ParsedChangelog<'static> {
    ParsedChangelog {
        unreleased: Some(ParsedUnreleased {
            changes: vec![
                changes(first, Span::new(0, 0)),
                changes(second, Span::new(1, usize::MAX)),
            ],
            ..Default::default()
        }),
        releases: vec![ParsedRelease {
            changes: vec![
                changes(first, Span::new(0, 0)),
                changes(second, Span::new(2, usize::MAX)),
            ],
            ..Default::default()
        }],
        ..Default::default()
    }
}

#[test]
fn test_unknown_change_type() {
    let changelog = ParsedChangelog::default();
    assert_eq!(lint(Rule::UnknownChangeType, &changelog), vec![]);

    let changelog = changelog_with_kinds("Added", "Foo");
    assert_eq!(
        lint(Rule::UnknownChangeType, &changelog),
        vec![
            at(Rule::UnknownChangeType, 1, usize::MAX),
            at(Rule::UnknownChangeType, 2, usize::MAX),
        ]
    );
}

#[test]
fn test_invalid_change_type() {
    let changelog = ParsedChangelog::default();
    assert_eq!(lint(Rule::UnknownChangeType, &changelog), vec![]);

    let changelog = changelog_with_kinds("Added", "Foo");
    assert_eq!(
        lint(Rule::UnknownChangeType, &changelog),
        vec![
            at(Rule::UnknownChangeType, 1, usize::MAX),
            at(Rule::UnknownChangeType, 2, usize::MAX),
        ]
    );
}

#[test]
fn test_change_types_are_case_sensitive() {
    for kind in ["Added", "Changed", "Deprecated", "Fixed", "Removed", "Security"] {
        assert!(checks::is_known_change_type(kind));
    }
    for kind in ["added", "ADDED", "Added ", "", "Add", "Securit\u{e9}"] {
        assert!(!checks::is_known_change_type(kind));
    }
}

#[test]
fn content_test_duplicate_change_type() {
    let changelog = ParsedChangelog::default();
    assert_eq!(lint(Rule::DuplicateChangeType, &changelog), vec![]);

    let changelog = changelog_with_kinds("Added", "Added");
    assert_eq!(
        lint(Rule::DuplicateChangeType, &changelog),
        vec![
            at(Rule::DuplicateChangeType, 1, usize::MAX),
            at(Rule::DuplicateChangeType, 2, usize::MAX),
        ]
    );
}

#[test]
fn changes_test_duplicate_change_type() {
    let changelog = ParsedChangelog::default();
    assert_eq!(lint(Rule::DuplicateChangeType, &changelog), vec![]);

    let changelog = changelog_with_kinds("Added", "Added");
    assert_eq!(
        lint(Rule::DuplicateChangeType, &changelog),
        vec![
            at(Rule::DuplicateChangeType, 1, usize::MAX),
            at(Rule::DuplicateChangeType, 2, usize::MAX),
        ]
    );
}

#[test]
fn test_change_type_scope() {
    // In one release, the second `Added` is a duplicate, and a third one too.
    let changelog = ParsedChangelog {
        releases: vec![ParsedRelease {
            changes: vec![
                changes("Added", Span::new(1, 2)),
                changes("Added", Span::new(3, 4)),
                changes("added", Span::new(5, 6)),
                changes("Added", Span::new(7, 8)),
            ],
            ..Default::default()
        }],
        ..Default::default()
    };
    assert_eq!(
        lint(Rule::DuplicateChangeType, &changelog),
        vec![
            at(Rule::DuplicateChangeType, 3, 4),
            at(Rule::DuplicateChangeType, 7, 8),
        ]
    );

    // What the unreleased section holds has no bearing on a release, nor
    // one release on the next.
    let changelog = ParsedChangelog {
        unreleased: Some(ParsedUnreleased {
            changes: vec![changes("Added", Span::new(1, 2))],
            ..Default::default()
        }),
        releases: vec![
            ParsedRelease {
                changes: vec![changes("Added", Span::new(3, 4))],
                ..Default::default()
            },
            ParsedRelease {
                changes: vec![changes("Added", Span::new(5, 6))],
                ..Default::default()
            },
        ],
        ..Default::default()
    };
    assert_eq!(lint(Rule::DuplicateChangeType, &changelog), vec![]);
}

#[test]
fn test_invalid_date() {
    let changelog = ParsedChangelog::default();
    assert_eq!(lint(Rule::InvalidDate, &changelog), vec![]);

    let changelog = ParsedChangelog {
        releases: vec![
            ParsedRelease {
                ..Default::default()
            },
            ParsedRelease {
                date: Some(Spanned::new(Span::new(0, 9), "2038-01-19")),
                ..Default::default()
            },
            ParsedRelease {
                date: Some(Spanned::new(Span::new(1, usize::MAX), "2001-01-00")),
                ..Default::default()
            },
            ParsedRelease {
                date: Some(Spanned::new(Span::new(2, usize::MAX), "foo")),
                ..Default::default()
            },
        ],
        ..Default::default()
    };
    assert_eq!(
        lint(Rule::InvalidDate, &changelog),
        vec![
            at(Rule::InvalidDate, 1, usize::MAX),
            at(Rule::InvalidDate, 2, usize::MAX),
        ]
    );
    // The release without a date is missing one; its date is not invalid.
    assert_eq!(
        lint(Rule::MissingDate, &changelog),
        vec![at(Rule::MissingDate, 0, 0)]
    );
}

#[test]
fn test_dates() {
    let flagged = |date: &'static str| {
        let changelog = ParsedChangelog {
            releases: vec![release_dated(date)],
            ..Default::default()
        };
        !lint(Rule::InvalidDate, &changelog).is_empty()
    };
    for date in ["2038-01-19", "2024-02-29", "2000-12-31", "0001-01-01"] {
        assert!(!flagged(date), "{date}");
    }
    for date in [
        "2001-01-00",
        "2001-01-32",
        "2023-02-29",
        "2001-13-01",
        "2001-00-10",
        "2001-1-1",
        "01-01-2001",
        "2001/01/01",
        "2001-01-01 ",
        "2001-01-01T00:00:00",
        "foo",
        "",
    ] {
        assert!(flagged(date), "{date}");
    }
}

#[test]
fn test_invalid_yanked() {
    let changelog = ParsedChangelog::default();
    assert_eq!(lint(Rule::InvalidYanked, &changelog), vec![]);

    let changelog = ParsedChangelog {
        releases: vec![
            ParsedRelease::default(),
            ParsedRelease {
                yanked: Some(Spanned::new(Span::new(0, 9), "[YANKED]")),
                ..Default::default()
            },
            ParsedRelease {
                yanked: Some(Spanned::new(Span::new(1, usize::MAX), "[ZANKED]")),
                ..Default::default()
            },
        ],
        ..Default::default()
    };
    assert_eq!(
        lint(Rule::InvalidYanked, &changelog),
        vec![at(Rule::InvalidYanked, 1, usize::MAX)]
    );
}

#[test]
fn test_missing_date() {
    let changelog = ParsedChangelog::default();
    assert_eq!(lint(Rule::MissingDate, &changelog), vec![]);

    let changelog = ParsedChangelog {
        releases: vec![
            ParsedRelease {
                date: Some(Spanned::new(Span::new(0, 11), "2025-01-01")),
                ..Default::default()
            },
            ParsedRelease {
                heading_span: Span::new(1, usize::MAX),
                ..Default::default()
            },
        ],
        ..Default::default()
    };
    assert_eq!(
        lint(Rule::MissingDate, &changelog),
        vec![at(Rule::MissingDate, 1, usize::MAX)]
    );
    assert_eq!(lint(Rule::InvalidDate, &changelog), vec![]);
}

#[test]
fn test_invalid_release_order() {
    let changelog = ParsedChangelog::default();
    assert_eq!(lint(Rule::InvalidReleaseOrder, &changelog), vec![]);

    let changelog = ParsedChangelog {
        releases: vec![
            ParsedRelease {
                date: Some(Spanned::new(Span::default(), "2025-12-31")),
                ..Default::default()
            },
            ParsedRelease {
                date: Some(Spanned::new(Span::default(), "2025-01-01")),
                ..Default::default()
            },
            ParsedRelease {
                heading_span: Span::new(1, usize::MAX),
                date: Some(Spanned::new(Span::default(), "2025-06-01")),
                ..Default::default()
            },
            ParsedRelease {
                date: Some(Spanned::new(Span::default(), "2025-01-01")),
                ..Default::default()
            },
        ],
        ..Default::default()
    };
    assert_eq!(
        lint(Rule::InvalidReleaseOrder, &changelog),
        vec![at(Rule::InvalidReleaseOrder, 1, usize::MAX)]
    );
}

#[test]
fn test_release_order_looks_at_neighbours_only() {
    // Each release is older than the one before it, but for the last, which
    // is newer than the second and older than the third: nothing is found.
    let changelog = ParsedChangelog {
        releases: vec![
            release_versioned(10, "3.0.0", Some("2025-03-01")),
            release_versioned(20, "1.0.0", Some("2025-01-01")),
            release_versioned(30, "2.0.0", Some("2025-01-01")),
        ],
        ..Default::default()
    };
    // Same date, greater version behind a smaller one.
    assert_eq!(
        lint(Rule::InvalidReleaseOrder, &changelog),
        vec![at(Rule::InvalidReleaseOrder, 30, 31)]
    );

    let changelog = ParsedChangelog {
        releases: vec![
            release_versioned(10, "2.0.0", Some("2025-01-01")),
            release_versioned(20, "2.0.0", Some("2025-01-01")),
            release_versioned(30, "1.9.9", Some("2025-01-01")),
            release_versioned(40, "1.10.0", Some("2025-01-01")),
        ],
        ..Default::default()
    };
    assert_eq!(
        lint(Rule::InvalidReleaseOrder, &changelog),
        vec![at(Rule::InvalidReleaseOrder, 40, 41)]
    );
}

#[test]
fn test_release_order_without_date_or_version() {
    // A release without a date counts as older than a dated one.
    let changelog = ParsedChangelog {
        releases: vec![
            release_versioned(10, "2.0.0", None),
            release_versioned(20, "1.0.0", Some("2025-01-01")),
            release_versioned(30, "0.9.0", None),
            release_versioned(40, "0.8.0", None),
            release_versioned(50, "0.8.1", None),
        ],
        ..Default::default()
    };
    assert_eq!(
        lint(Rule::InvalidReleaseOrder, &changelog),
        vec![
            at(Rule::InvalidReleaseOrder, 20, 21),
            at(Rule::InvalidReleaseOrder, 50, 51),
        ]
    );

    // A version that cannot be read takes its release out of both of its
    // pairs.
    let changelog = ParsedChangelog {
        releases: vec![
            release_versioned(10, "1.0.0", Some("2025-01-01")),
            release_versioned(20, "broken", Some("2025-06-01")),
            release_versioned(30, "1.0.0", Some("2025-12-31")),
            release_versioned(40, "1.0.0", Some("2026-01-01")),
        ],
        ..Default::default()
    };
    assert_eq!(
        lint(Rule::InvalidReleaseOrder, &changelog),
        vec![at(Rule::InvalidReleaseOrder, 40, 41)]
    );
}

#[test]
fn test_duplicate_version() {
    let changelog = ParsedChangelog::default();
    assert_eq!(lint(Rule::DuplicateVersion, &changelog), vec![]);

    let changelog = ParsedChangelog {
        releases: vec![
            ParsedRelease {
                version: Spanned::new(Span::default(), "1.0.0"),
                ..Default::default()
            },
            ParsedRelease {
                version: Spanned::new(Span::new(1, usize::MAX), "1.0.0"),
                ..Default::default()
            },
            ParsedRelease {
                version: Spanned::new(Span::default(), "0.1.0"),
                ..Default::default()
            },
        ],
        ..Default::default()
    };
    assert_eq!(
        lint(Rule::DuplicateVersion, &changelog),
        vec![at(Rule::DuplicateVersion, 1, usize::MAX)]
    );
}

#[test]
fn test_duplicate_version_is_textual() {
    let version = |span: usize, version: &'static str| ParsedRelease {
        version: Spanned::new(Span::new(span, span + 1), version),
        ..Default::default()
    };
    let changelog = ParsedChangelog {
        releases: vec![
            version(1, "1.0.0"),
            version(2, "1.0"),
            version(3, "v1.0.0"),
            version(4, "1.0.0"),
            version(5, "1.0"),
            version(6, "1.0.0"),
        ],
        ..Default::default()
    };
    assert_eq!(
        lint(Rule::DuplicateVersion, &changelog),
        vec![
            at(Rule::DuplicateVersion, 4, 5),
            at(Rule::DuplicateVersion, 5, 6),
            at(Rule::DuplicateVersion, 6, 7),
        ]
    );
}

#[test]
fn test_lint_end_to_end() {
    let source = "# Changelog

## [Unreleased]

### Added

* Add foo

[Unreleased]: https://example.org/
";
    let changelog = parse(source);
    assert_eq!(Linter::default().lint(&changelog), vec![]);
}

#[test]
fn test_lint_broken_reference() {
    let source = "# Changelog

## [Unreleased]

### Added

* Add foo ([#12345])

[Unreleased]: https://example.org/
";
    let changelog = parse(source);
    let diagnostics = Linter::default().lint(&changelog);
    assert_eq!(diagnostics, vec![at(Rule::UndefinedLinkReference, 52, 60)]);
    assert_eq!(diagnostics[0].rule.code(), "E300");
    assert_eq!(diagnostics[0].range(), Some(52..60));
    assert_eq!(
        diagnostics[0].message(source),
        "Link reference does not exist: `[#12345]`"
    );
    let located = changelog.locate_all(&diagnostics);
    assert_eq!(located[0].range(), Some(52..60));
    assert_eq!((located[0].line(), located[0].column()), (Some(7), Some(12)));
    assert_eq!(changelog.locate(&diagnostics[0]), located[0]);

    // A ruleset without the rule finds nothing.
    let ruleset = RuleSet::new(&[Rule::MissingTitle, Rule::MissingUnreleased]);
    assert_eq!(Linter::new(&ruleset).lint(&changelog), vec![]);
}

fn faulty() -> ParsedChangelog<'static> {
    ParsedChangelog {
        unreleased: None,
        releases: vec![
            ParsedRelease {
                heading_span: Span::new(10, 20),
                version: Spanned::new(Span::new(13, 18), "1.0.0"),
                date: Some(Spanned::new(Span::new(21, 24), "foo")),
                yanked: Some(Spanned::new(Span::new(25, 30), "[yes]")),
                changes: vec![
                    changes("Foo", Span::new(31, 34)),
                    changes("Foo", Span::new(35, 38)),
                ],
                ..Default::default()
            },
            ParsedRelease {
                heading_span: Span::new(40, 50),
                version: Spanned::new(Span::new(43, 48), "1.0.0"),
                ..Default::default()
            },
        ],
        invalid_spans: vec![
            InvalidSpan::UndefinedLinkReference(Span::new(1, 2)),
            InvalidSpan::InvalidTitle(Span::new(3, 4)),
            InvalidSpan::DuplicateTitle(Span::new(5, 6)),
            InvalidSpan::InvalidUnreleasedPosition(Span::new(7, 8)),
            InvalidSpan::DuplicateUnreleased(Span::new(9, 10)),
            InvalidSpan::InvalidSectionHeading(Span::new(11, 12)),
            InvalidSpan::UndefinedLinkReference(Span::new(13, 14)),
        ],
        ..Default::default()
    }
}

#[test]
fn test_lint_runs_the_checks_in_order() {
    let changelog = faulty();
    let diagnostics = Linter::default().lint(&changelog);
    assert_eq!(
        diagnostics,
        vec![
            Diagnostic::new(Rule::MissingTitle, None),
            at(Rule::DuplicateTitle, 5, 6),
            Diagnostic::new(Rule::MissingUnreleased, None),
            at(Rule::DuplicateUnreleased, 9, 10),
            at(Rule::InvalidUnreleasedPosition, 7, 8),
            at(Rule::InvalidSectionHeading, 11, 12),
            at(Rule::InvalidTitle, 3, 4),
            // The two groups of the first release, and the second release.
            at(Rule::EmptySection, 0, 0),
            at(Rule::EmptySection, 0, 0),
            at(Rule::EmptySection, 40, 50),
            at(Rule::UnknownChangeType, 31, 34),
            at(Rule::UnknownChangeType, 35, 38),
            at(Rule::DuplicateChangeType, 35, 38),
            // A release without a date may stand behind a release with one.
            at(Rule::DuplicateVersion, 43, 48),
            at(Rule::MissingDate, 40, 50),
            at(Rule::InvalidDate, 21, 24),
            at(Rule::InvalidYanked, 25, 30),
            at(Rule::UndefinedLinkReference, 1, 2),
            at(Rule::UndefinedLinkReference, 13, 14),
        ]
    );
    // Each rule by itself finds what it finds among all.
    for rule in Rule::ALL.iter() {
        let alone: Vec<Diagnostic> = diagnostics
            .iter()
            .filter(|diagnostic| diagnostic.rule == *rule)
            .cloned()
            .collect();
        assert_eq!(lint(*rule, &changelog), alone);
    }
    assert_eq!(Linter::new(&RuleSet::empty()).lint(&changelog), vec![]);
}

#[test]
fn test_lint_twice() {
    let changelog = faulty();
    let linter = Linter::default();
    let first = linter.lint(&changelog);
    assert_eq!(linter.lint(&changelog), first);
    assert_eq!(Linter::default().lint(&changelog), first);
}

#[test]
fn test_with_filename() {
    let changelog = faulty();
    let plain = Linter::default().lint(&changelog);
    let linter = Linter::default().with_filename(Some("CHANGELOG.md".to_string()));
    let named = linter.lint(&changelog);
    assert_eq!(named.len(), plain.len());
    for (named, plain) in named.iter().zip(plain.iter()) {
        assert_eq!(named.rule, plain.rule);
        assert_eq!(named.location, plain.location);
        assert_eq!(named.path, Some("CHANGELOG.md".to_string()));
        assert_eq!(plain.path, None);
    }
    let ruleset = RuleSet::default();
    let linter = Linter::new(&ruleset)
        .with_filename(Some("a".to_string()))
        .with_filename(None);
    assert_eq!(linter.lint(&changelog), plain);
}

#[test]
fn test_checks_order() {
    assert_eq!(
        notabene::linter::checks(),
        vec![
            Rule::MissingTitle,
            Rule::DuplicateTitle,
            Rule::MissingUnreleased,
            Rule::DuplicateUnreleased,
            Rule::InvalidUnreleasedPosition,
            Rule::InvalidSectionHeading,
            Rule::InvalidTitle,
            Rule::EmptySection,
            Rule::UnknownChangeType,
            Rule::DuplicateChangeType,
            Rule::InvalidReleaseOrder,
            Rule::DuplicateVersion,
            Rule::MissingDate,
            Rule::InvalidDate,
            Rule::InvalidYanked,
            Rule::UndefinedLinkReference,
        ]
    );
}

#[test]
fn test_checks_by_hand() {
    let changelog = faulty();

    let mut check = MissingTitle::default();
    assert_eq!(check.rule(), Rule::MissingTitle);
    assert_eq!(check.locations(), vec![None]);
    check.visit_changelog(&changelog);
    assert_eq!(check.locations(), vec![None]);
    let titled = ParsedChangelog {
        title: Some(Spanned::new(Span::new(2, 3), "A")),
        ..Default::default()
    };
    check.visit_changelog(&titled);
    check.finalize();
    assert_eq!(check.locations(), vec![]);

    let mut check = EmptySection::default();
    assert_eq!(check.rule(), Rule::EmptySection);
    check.visit_unreleased(&ParsedUnreleased::default());
    check.visit_release(&changelog.releases[1]);
    check.visit_release(&changelog.releases[0]);
    check.visit_changes(&changelog.releases[0].changes[0]);
    check.visit_invalid_span(&changelog.invalid_spans[0]);
    assert_eq!(
        check.locations(),
        vec![Some(Span::new(40, 50)), Some(Span::new(0, 0))]
    );

    let mut check = DuplicateChangeType::default();
    let group = changes("Added", Span::new(1, 2));
    check.visit_changes(&group);
    check.visit_changes(&group);
    check.visit_release(&changelog.releases[1]);
    check.visit_changes(&group);
    check.visit_unreleased(&ParsedUnreleased::default());
    check.visit_changes(&group);
    check.visit_changes(&group);
    assert_eq!(
        check.locations(),
        vec![Some(Span::new(1, 2)), Some(Span::new(1, 2))]
    );

    let mut check = DuplicateVersion::default();
    check.visit_release(&changelog.releases[0]);
    check.visit_unreleased(&ParsedUnreleased::default());
    check.visit_release(&changelog.releases[1]);
    assert_eq!(check.locations(), vec![Some(Span::new(43, 48))]);

    // The order of the releases is looked at when the walk ends.
    let mut check = InvalidReleaseOrder::default();
    check.visit_release(&changelog.releases[1]);
    check.visit_release(&changelog.releases[0]);
    assert_eq!(check.locations(), vec![]);
    check.finalize();
    assert_eq!(check.locations(), vec![Some(Span::new(10, 20))]);
}
