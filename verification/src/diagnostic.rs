//! Linter diagnostics.
use std::ops::Range;

use vstd::prelude::*;
use vstd::string::{StringExecFns, StringSliceAdditionalSpecFns};
use vstd::utf8::*;

use crate::rule::Rule;
use crate::span::{Locator, Position, Ranged, Span};
use crate::text::{slice, sliceable};

verus! {

/// A rule violation.
///
/// The location of a diagnostic is a [`Span`] when the linter reports it. Use
/// [`Diagnostic::locate`] to turn it into a [`Position`].
#[derive(Clone, Debug, PartialEq)]
pub struct Diagnostic<L = Span> {
    /// The rule that was violated.
    pub rule: Rule,
    /// Where in the source document the violation is. There is no location
    /// where the violation is one of the document as a whole (a missing title).
    pub location: Option<L>,
    /// The path of the source document, for reports.
    pub path: Option<String>,
}

/// The span with the bounds of a range.
pub open spec fn range_span(range: Range<usize>) -> Span {
    Span { start: range.start, end: range.end }
}

/// The message of a violation of `rule` at `location` in a source encoded as
/// `bytes`: the message of the rule, with the text at the location in the
/// place of the mark `{}`.
pub open spec fn message_text(rule: Rule, location: Option<Span>, bytes: Seq<u8>) -> Seq<char> {
    match location {
        Some(span) => if rule.spec_quotes_source() {
            rule.spec_message_head() + decode_utf8(span.of(bytes)) + "`"@
        } else {
            rule.spec_message()
        },
        None => rule.spec_message(),
    }
}

impl Diagnostic<Span> {
    /// A diagnostic for a violation of `rule` at `location`.
    pub fn new(rule: Rule, location: Option<Span>) -> (diagnostic: Diagnostic<Span>)
        ensures
            diagnostic.rule == rule,
            diagnostic.location == location,
            diagnostic.path is None,
    {
        Diagnostic { rule, location, path: None }
    }
}

impl<L> Diagnostic<L> {
    /// The code of the rule that was violated.
    pub fn code(&self) -> (code: &'static str)
        ensures
            code@ == self.rule.spec_code(),
    {
        self.rule.code()
    }
}

impl<L: Ranged<usize>> Diagnostic<L> {
    /// The span of the location, if there is a location.
    pub open spec fn spec_span(&self) -> Option<Span> {
        match self.location {
            Some(location) => Some(range_span(location.spec_range())),
            None => None,
        }
    }

    /// The diagnostic with its location as a position in the source document
    /// that `locator` was built from.
    pub fn locate(self, locator: &Locator) -> (located: Diagnostic<Position>)
        requires
            self.spec_span() matches Some(span) ==> span.start < usize::MAX && span.end
                < usize::MAX,
        ensures
            located.rule == self.rule,
            located.path == self.path,
            located.location is Some <==> self.location is Some,
            located.location matches Some(position) ==> {
                &&& Some(range_span(position.spec_range())) == self.spec_span()
                &&& locator.is_point(position.start)
                &&& locator.is_point(position.end)
            },
    {
        let location = match &self.location {
            Some(location) => Some(locator.position(location)),
            None => None,
        };
        Diagnostic { rule: self.rule, location, path: self.path }
    }

    /// The message of the diagnostic: the message of its rule, with the text
    /// of `source` at the location in the place of the mark `{}`.
    pub fn message(&self, source: &str) -> (message: String)
        requires
            self.spec_span() matches Some(span) ==> sliceable(source.spec_bytes(), span),
        ensures
            message@ == message_text(self.rule, self.spec_span(), source.spec_bytes()),
    {
        match &self.location {
            Some(location) => {
                if self.rule.quotes_source() {
                    let range = location.range();
                    match slice(source, Span { start: range.start, end: range.end }) {
                        Some(snippet) => {
                            proof {
                                encode_utf8_decode_utf8(snippet@);
                            }
                            String::from_str(self.rule.message_head()).concat(snippet).concat("`")
                        },
                        None => String::from_str(self.rule.message()),
                    }
                } else {
                    String::from_str(self.rule.message())
                }
            },
            None => String::from_str(self.rule.message()),
        }
    }

    /// The range of offsets in the source document that the diagnostic is
    /// about.
    pub fn range(&self) -> (range: Option<Range<usize>>)
        ensures
            range == match self.location {
                Some(location) => Some(location.spec_range()),
                None => None,
            },
    {
        match &self.location {
            Some(location) => Some(location.range()),
            None => None,
        }
    }

    /// The position of the diagnostic in the source document that `locator`
    /// was built from.
    pub fn position(&self, locator: &Locator) -> (position: Option<Position>)
        requires
            self.spec_span() matches Some(span) ==> span.start < usize::MAX && span.end
                < usize::MAX,
        ensures
            position is Some <==> self.location is Some,
            position matches Some(found) ==> {
                &&& Some(range_span(found.spec_range())) == self.spec_span()
                &&& locator.is_point(found.start)
                &&& locator.is_point(found.end)
            },
    {
        match &self.location {
            Some(location) => Some(locator.position(location)),
            None => None,
        }
    }
}

impl Diagnostic<Position> {
    /// The number of the line at which the location starts.
    pub fn line(&self) -> (line: Option<usize>)
        ensures
            line == match self.location {
                Some(position) => Some(position.start.line),
                None => None,
            },
    {
        match self.location {
            Some(position) => Some(position.start.line),
            None => None,
        }
    }

    /// The number of the column at which the location starts.
    pub fn column(&self) -> (column: Option<usize>)
        ensures
            column == match self.location {
                Some(position) => Some(position.start.column),
                None => None,
            },
    {
        match self.location {
            Some(position) => Some(position.start.column),
            None => None,
        }
    }
}

} // verus!
