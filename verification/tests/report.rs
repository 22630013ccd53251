use notabene::cli::report::{
    count_digits, excerpt, simple_location, Context, Excerpt, Format, JsonDiagnostic, OutputFormat,
};
use notabene::span::{Locator, Point, Position, Span};
use notabene::{Diagnostic, Rule};

fn position(line: usize, column: usize) -> Position {
    Position::new(Point::new(line, column, 0), Point::new(line, column, 0))
}

#[test]
fn test_count_digits() {
    assert_eq!(count_digits(0), 1);
    assert_eq!(count_digits(9), 1);
    assert_eq!(count_digits(10), 2);
    assert_eq!(count_digits(99), 2);
    assert_eq!(count_digits(100), 3);
    assert_eq!(count_digits(12345), 5);
    assert_eq!(count_digits(usize::MAX), usize::MAX.to_string().len());
}

#[test]
fn test_excerpt() {
    // In the middle of a document: the lines before and behind are shown.
    assert_eq!(
        excerpt(&position(5, 3), 20),
        Excerpt {
            gutter_width: 1,
            previous: Some(4),
            line: 5,
            next: Some(6),
            indent: 3
        }
    );
    // On the first line there is no line before.
    assert_eq!(
        excerpt(&position(1, 1), 20),
        Excerpt {
            gutter_width: 1,
            previous: None,
            line: 1,
            next: Some(2),
            indent: 1
        }
    );
    // The last line of the document is never shown as the line behind.
    assert_eq!(excerpt(&position(19, 1), 20).next, None);
    assert_eq!(excerpt(&position(18, 1), 20).next, Some(19));
    assert_eq!(excerpt(&position(20, 1), 20).next, None);
    // The gutter is as wide as the number of the line behind.
    assert_eq!(excerpt(&position(8, 1), 20).gutter_width, 1);
    assert_eq!(excerpt(&position(9, 1), 20).gutter_width, 2);
    assert_eq!(excerpt(&position(99, 1), 200).gutter_width, 3);
}

#[test]
fn test_simple_location() {
    assert_eq!(simple_location(Some(position(7, 12))), (7, 12));
    assert_eq!(simple_location(None), (1, 1));
}

#[test]
fn test_json_diagnostic() {
    let source = "# Changelog\n\n# Again\n";
    let locator = Locator::new(source);
    let context = Context {
        source,
        path: Some("CHANGELOG.md"),
        locator: &locator,
    };
    let diagnostic = Diagnostic::new(Rule::DuplicateTitle, Some(Span::new(15, 20))).locate(&locator);
    assert_eq!(
        JsonDiagnostic::new(&diagnostic, &context),
        JsonDiagnostic {
            code: "E002".to_string(),
            position: Some(Position::new(
                Point::new(3, 3, 15),
                Point::new(3, 8, 20)
            )),
            path: Some("CHANGELOG.md".to_string()),
            message: "Duplicate title `Again`".to_string(),
        }
    );
    let context = Context {
        source,
        path: None,
        locator: &locator,
    };
    let diagnostic = Diagnostic::new(Rule::MissingUnreleased, None).locate(&locator);
    assert_eq!(
        JsonDiagnostic::new(&diagnostic, &context),
        JsonDiagnostic {
            code: "E003".to_string(),
            position: None,
            path: None,
            message: "Missing unreleased heading".to_string(),
        }
    );
}

#[test]
fn test_format_defaults() {
    assert_eq!(Format::default(), Format::Short);
    assert_eq!(OutputFormat::default(), OutputFormat::Short);
}
