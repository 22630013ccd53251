//! How diagnostics are reported.
use vstd::prelude::*;
use vstd::string::{StringExecFns, StringSliceAdditionalSpecFns};

use crate::changelog::parsed::option_owned;
use crate::diagnostic::{message_text, range_span, Diagnostic};
use crate::span::{Locator, Position, Ranged};
use crate::text::sliceable;

verus! {

/// An output format for diagnostics.
#[derive(Copy, Clone, Debug, PartialEq, Eq, Structural)]
pub enum Format {
    /// One line for each diagnostic.
    Short,
    /// Several lines for each diagnostic, with the source around it.
    Full,
    /// All diagnostics as one JSON value.
    Json,
    /// Each diagnostic as a JSON value on a line of its own.
    JsonLines,
}

impl Default for Format {
    fn default() -> (format: Format)
        ensures
            format == Format::Short,
    {
        Format::Short
    }
}

/// An output format for rendered diagnostics.
#[derive(Copy, Clone, Debug, PartialEq, Eq, Structural)]
pub enum OutputFormat {
    /// One line for each diagnostic.
    Short,
    /// Several lines for each diagnostic, with the source around it.
    Full,
    /// All diagnostics as one JSON value.
    Json,
    /// Each diagnostic as a JSON value on a line of its own.
    JsonLines,
}

impl Default for OutputFormat {
    fn default() -> (format: OutputFormat)
        ensures
            format == OutputFormat::Short,
    {
        OutputFormat::Short
    }
}

/// What a report is made from: the source document, its path, and a locator
/// for it.
pub struct Context<'a> {
    pub source: &'a str,
    pub path: Option<&'a str>,
    pub locator: &'a Locator<'a>,
}

/// A diagnostic as it is written in the JSON formats.
#[derive(Clone, Debug, PartialEq)]
pub struct JsonDiagnostic {
    pub code: String,
    pub position: Option<Position>,
    pub path: Option<String>,
    pub message: String,
}

impl JsonDiagnostic {
    /// The record of `diagnostic` in a report on the document of `context`:
    /// the code of its rule, its position, the path of the document, and its
    /// message.
    pub fn new(diagnostic: &Diagnostic<Position>, context: &Context) -> (record: JsonDiagnostic)
        requires
            diagnostic.spec_span() matches Some(span) ==> {
                &&& span.start < usize::MAX
                &&& span.end < usize::MAX
                &&& sliceable(context.source.spec_bytes(), span)
            },
        ensures
            record.code@ == diagnostic.rule.spec_code(),
            record.position is Some <==> diagnostic.location is Some,
            record.position matches Some(position) ==> {
                &&& Some(range_span(position.spec_range())) == diagnostic.spec_span()
                &&& context.locator.is_point(position.start)
                &&& context.locator.is_point(position.end)
            },
            record.path is Some <==> context.path is Some,
            record.path matches Some(path) ==> path@ == context.path->0@,
            record.message@ == message_text(
                diagnostic.rule,
                diagnostic.spec_span(),
                context.source.spec_bytes(),
            ),
    {
        JsonDiagnostic {
            code: String::from_str(diagnostic.code()),
            position: diagnostic.position(context.locator),
            path: option_owned(context.path),
            message: diagnostic.message(context.source),
        }
    }
}

/// The number of digits of a number written in base ten.
pub open spec fn decimal_digits(number: nat) -> nat
    decreases number,
{
    if number < 10 {
        1
    } else {
        1 + decimal_digits(number / 10)
    }
}

/// The number of digits of a number written in base ten.
pub fn count_digits(number: usize) -> (digits: usize)
    ensures
        digits == decimal_digits(number as nat),
{
    let mut rest = number;
    let mut digits: usize = 1;
    while rest >= 10
        invariant
            digits >= 1,
            digits + decimal_digits(rest as nat) == 1 + decimal_digits(number as nat),
            digits + rest <= number + 1,
        decreases rest,
    {
        rest = rest / 10;
        digits = digits + 1;
    }
    digits
}

/// The lines of the source that the full format shows around a diagnostic.
#[derive(Copy, Clone, Debug, PartialEq, Eq, Structural)]
pub struct Excerpt {
    /// The width of the column that holds the line numbers.
    pub gutter_width: usize,
    /// The number of the line before the diagnostic, if it is shown.
    pub previous: Option<usize>,
    /// The number of the line of the diagnostic.
    pub line: usize,
    /// The number of the line behind the diagnostic, if it is shown.
    pub next: Option<usize>,
    /// The number of blanks before the mark below the line of the diagnostic.
    pub indent: usize,
}

/// The lines to show around a diagnostic at `position` in a document of
/// `lines` lines: the line of the diagnostic; the line before it, unless the
/// diagnostic is on the first line; and the line behind it, if that is not
/// the last line of the document. The column of the line numbers is as wide
/// as the number of the line behind the diagnostic.
pub fn excerpt(position: &Position, lines: usize) -> (shown: Excerpt)
    requires
        position.start.line < usize::MAX,
    ensures
        shown.line == position.start.line,
        shown.previous == if position.start.line > 1 {
            Some((position.start.line - 1) as usize)
        } else {
            None
        },
        shown.next == if position.start.line + 1 < lines {
            Some((position.start.line + 1) as usize)
        } else {
            None
        },
        shown.gutter_width == decimal_digits((position.start.line + 1) as nat),
        shown.indent == position.start.column,
{
    let line = position.start.line;
    Excerpt {
        gutter_width: count_digits(line + 1),
        previous: if line > 1 {
            Some(line - 1)
        } else {
            None
        },
        line,
        next: if line + 1 < lines {
            Some(line + 1)
        } else {
            None
        },
        indent: position.start.column,
    }
}

/// The line and the column that the short format names for a diagnostic at
/// `position`: those of its start, and line 1, column 1 for a diagnostic
/// without a position.
pub fn simple_location(position: Option<Position>) -> (place: (usize, usize))
    ensures
        place == match position {
            Some(position) => (position.start.line, position.start.column),
            None => (1usize, 1usize),
        },
{
    match position {
        Some(position) => (position.start.line, position.start.column),
        None => (1, 1),
    }
}

} // verus!
