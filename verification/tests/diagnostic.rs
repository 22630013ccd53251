use notabene::span::{Locator, Point, Position, Span};
use notabene::{Diagnostic, Rule};

#[test]
fn test_new() {
    assert_eq!(
        Diagnostic::new(Rule::MissingTitle, None),
        Diagnostic {
            rule: Rule::MissingTitle,
            location: None,
            path: None
        }
    );
    assert_eq!(
        Diagnostic::new(Rule::MissingTitle, Some(Span::default())),
        Diagnostic {
            rule: Rule::MissingTitle,
            location: Some(Span::default()),
            path: None
        }
    );
}

#[test]
fn test_code() {
    assert_eq!(
        Diagnostic::new(Rule::MissingTitle, None).code(),
        Rule::MissingTitle.code()
    );
}

#[test]
fn test_message() {
    let source = "";
    let diagnostic = Diagnostic::new(Rule::MissingTitle, None);
    assert_eq!(diagnostic.message(source), Rule::MissingTitle.message());

    let source = "# Changelog";
    let diagnostic = Diagnostic::new(Rule::DuplicateTitle, Some(Span::new(2, 11)));
    assert_eq!(
        diagnostic.message(source),
        Rule::DuplicateTitle.message().replace("{}", "Changelog")
    );
}

#[test]
fn test_message_texts() {
    let source = "# Changelog";
    assert_eq!(
        Diagnostic::new(Rule::DuplicateTitle, Some(Span::new(2, 11))).message(source),
        "Duplicate title `Changelog`"
    );
    // A rule whose message has no place for the source says the same with
    // and without a location.
    assert_eq!(
        Diagnostic::new(Rule::EmptySection, Some(Span::new(0, 11))).message(source),
        "Empty section"
    );
    // Without a location the message is the template as it stands.
    assert_eq!(
        Diagnostic::new(Rule::InvalidDate, None).message(source),
        "Invalid date `{}`"
    );
    assert_eq!(
        Diagnostic::new(Rule::InvalidTitle, Some(Span::new(0, 0))).message(source),
        "Invalid title ``"
    );
}

#[test]
fn test_range_and_position() {
    let source = "ab\ncd";
    let locator = Locator::new(source);
    let diagnostic = Diagnostic::new(Rule::InvalidDate, Some(Span::new(3, 5)));
    assert_eq!(diagnostic.range(), Some(3..5));
    assert_eq!(
        diagnostic.position(&locator),
        Some(Position::new(Point::new(2, 1, 3), Point::new(2, 3, 5)))
    );
    let located = diagnostic.locate(&locator);
    assert_eq!(located.rule, Rule::InvalidDate);
    assert_eq!(
        located.location,
        Some(Position::new(Point::new(2, 1, 3), Point::new(2, 3, 5)))
    );
    assert_eq!(located.range(), Some(3..5));
    assert_eq!(located.line(), Some(2));
    assert_eq!(located.column(), Some(1));
    assert_eq!(located.code(), "E203");

    let nowhere = Diagnostic::new(Rule::MissingTitle, None);
    assert_eq!(nowhere.range(), None);
    assert_eq!(nowhere.position(&locator), None);
    let located = nowhere.locate(&locator);
    assert_eq!(located.location, None);
    assert_eq!(located.line(), None);
    assert_eq!(located.column(), None);
}
