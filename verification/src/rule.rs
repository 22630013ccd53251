//! Linter rules.
use vstd::prelude::*;
use vstd::string::StringExecFns;

use crate::text::str_eq;

verus! {

/// A linter rule.
#[derive(Clone, Copy, Debug, Eq, Hash, PartialEq, Structural)]
#[non_exhaustive]
pub enum Rule {
    /// `E001`. The title is missing.
    MissingTitle,
    /// `E002`. There is a duplicate `h1` in the document.
    DuplicateTitle,
    /// `E003`. The document does not have an unreleased section.
    MissingUnreleased,
    /// `E004`. There is more than one unreleased section heading in the document.
    DuplicateUnreleased,
    /// `E005`. The unreleased section is not the first section in the document.
    InvalidUnreleasedPosition,
    /// `E100`. The title is not plain text.
    InvalidTitle,
    /// `E101`. The `h2` is not a valid unreleased or release section heading.
    InvalidSectionHeading,
    /// `E102`. A section is unexpectedly empty (e.g. a release with no changes).
    EmptySection,
    /// `E103`. The change section heading is not a known change type.
    UnknownChangeType,
    /// `E104`. There is more than one change section with the same change type.
    DuplicateChangeType,
    /// `E200`. The release is not in reverse chronological order.
    InvalidReleaseOrder,
    /// `E201`. There is more than one release for this version in the document.
    DuplicateVersion,
    /// `E202`. The release is missing a date.
    MissingDate,
    /// `E203`. The date is not in ISO 8601 format.
    InvalidDate,
    /// `E204`. The yanked token does not match `[YANKED]`.
    InvalidYanked,
    /// `E300`. The target reference does not exist.
    UndefinedLinkReference,
}

/// The number of rules.
pub const RULE_COUNT: usize = 16;

impl Rule {
    /// All rules, in the order of their codes.
    pub const ALL: [Rule; 16] = [
        Rule::MissingTitle,
        Rule::DuplicateTitle,
        Rule::MissingUnreleased,
        Rule::DuplicateUnreleased,
        Rule::InvalidUnreleasedPosition,
        Rule::InvalidTitle,
        Rule::InvalidSectionHeading,
        Rule::EmptySection,
        Rule::UnknownChangeType,
        Rule::DuplicateChangeType,
        Rule::InvalidReleaseOrder,
        Rule::DuplicateVersion,
        Rule::MissingDate,
        Rule::InvalidDate,
        Rule::InvalidYanked,
        Rule::UndefinedLinkReference,
    ];

    /// The place of the rule among all rules, counted from 0.
    pub open spec fn spec_index(self) -> int {
        match self {
            Rule::MissingTitle => 0,
            Rule::DuplicateTitle => 1,
            Rule::MissingUnreleased => 2,
            Rule::DuplicateUnreleased => 3,
            Rule::InvalidUnreleasedPosition => 4,
            Rule::InvalidTitle => 5,
            Rule::InvalidSectionHeading => 6,
            Rule::EmptySection => 7,
            Rule::UnknownChangeType => 8,
            Rule::DuplicateChangeType => 9,
            Rule::InvalidReleaseOrder => 10,
            Rule::DuplicateVersion => 11,
            Rule::MissingDate => 12,
            Rule::InvalidDate => 13,
            Rule::InvalidYanked => 14,
            Rule::UndefinedLinkReference => 15,
        }
    }

    /// The place of the rule among all rules, counted from 0.
    pub fn index(self) -> (index: usize)
        ensures
            index == self.spec_index(),
            index < RULE_COUNT,
    {
        match self {
            Rule::MissingTitle => 0,
            Rule::DuplicateTitle => 1,
            Rule::MissingUnreleased => 2,
            Rule::DuplicateUnreleased => 3,
            Rule::InvalidUnreleasedPosition => 4,
            Rule::InvalidTitle => 5,
            Rule::InvalidSectionHeading => 6,
            Rule::EmptySection => 7,
            Rule::UnknownChangeType => 8,
            Rule::DuplicateChangeType => 9,
            Rule::InvalidReleaseOrder => 10,
            Rule::DuplicateVersion => 11,
            Rule::MissingDate => 12,
            Rule::InvalidDate => 13,
            Rule::InvalidYanked => 14,
            Rule::UndefinedLinkReference => 15,
        }
    }

    /// The rule at place `index` among all rules.
    pub open spec fn spec_at(index: int) -> Rule {
        if index == 0 {
            Rule::MissingTitle
        } else if index == 1 {
            Rule::DuplicateTitle
        } else if index == 2 {
            Rule::MissingUnreleased
        } else if index == 3 {
            Rule::DuplicateUnreleased
        } else if index == 4 {
            Rule::InvalidUnreleasedPosition
        } else if index == 5 {
            Rule::InvalidTitle
        } else if index == 6 {
            Rule::InvalidSectionHeading
        } else if index == 7 {
            Rule::EmptySection
        } else if index == 8 {
            Rule::UnknownChangeType
        } else if index == 9 {
            Rule::DuplicateChangeType
        } else if index == 10 {
            Rule::InvalidReleaseOrder
        } else if index == 11 {
            Rule::DuplicateVersion
        } else if index == 12 {
            Rule::MissingDate
        } else if index == 13 {
            Rule::InvalidDate
        } else if index == 14 {
            Rule::InvalidYanked
        } else {
            Rule::UndefinedLinkReference
        }
    }

    /// The rule at place `index` among all rules.
    pub fn at(index: usize) -> (rule: Rule)
        requires
            index < RULE_COUNT,
        ensures
            rule == Rule::spec_at(index as int),
            rule.spec_index() == index,
    {
        if index == 0 {
            Rule::MissingTitle
        } else if index == 1 {
            Rule::DuplicateTitle
        } else if index == 2 {
            Rule::MissingUnreleased
        } else if index == 3 {
            Rule::DuplicateUnreleased
        } else if index == 4 {
            Rule::InvalidUnreleasedPosition
        } else if index == 5 {
            Rule::InvalidTitle
        } else if index == 6 {
            Rule::InvalidSectionHeading
        } else if index == 7 {
            Rule::EmptySection
        } else if index == 8 {
            Rule::UnknownChangeType
        } else if index == 9 {
            Rule::DuplicateChangeType
        } else if index == 10 {
            Rule::InvalidReleaseOrder
        } else if index == 11 {
            Rule::DuplicateVersion
        } else if index == 12 {
            Rule::MissingDate
        } else if index == 13 {
            Rule::InvalidDate
        } else if index == 14 {
            Rule::InvalidYanked
        } else {
            Rule::UndefinedLinkReference
        }
    }

    /// The code of the rule.
    pub open spec fn spec_code(self) -> Seq<char> {
        match self {
            Rule::MissingTitle => "E001"@,
            Rule::DuplicateTitle => "E002"@,
            Rule::MissingUnreleased => "E003"@,
            Rule::DuplicateUnreleased => "E004"@,
            Rule::InvalidUnreleasedPosition => "E005"@,
            Rule::InvalidTitle => "E100"@,
            Rule::InvalidSectionHeading => "E101"@,
            Rule::EmptySection => "E102"@,
            Rule::UnknownChangeType => "E103"@,
            Rule::DuplicateChangeType => "E104"@,
            Rule::InvalidReleaseOrder => "E200"@,
            Rule::DuplicateVersion => "E201"@,
            Rule::MissingDate => "E202"@,
            Rule::InvalidDate => "E203"@,
            Rule::InvalidYanked => "E204"@,
            Rule::UndefinedLinkReference => "E300"@,
        }
    }

    /// The code of the rule: a letter and three digits, the first of which
    /// groups the rules (0 structure, 1 content, 2 releases, 3 links).
    pub fn code(&self) -> (code: &'static str)
        ensures
            code@ == self.spec_code(),
    {
        match self {
            Rule::MissingTitle => "E001",
            Rule::DuplicateTitle => "E002",
            Rule::MissingUnreleased => "E003",
            Rule::DuplicateUnreleased => "E004",
            Rule::InvalidUnreleasedPosition => "E005",
            Rule::InvalidTitle => "E100",
            Rule::InvalidSectionHeading => "E101",
            Rule::EmptySection => "E102",
            Rule::UnknownChangeType => "E103",
            Rule::DuplicateChangeType => "E104",
            Rule::InvalidReleaseOrder => "E200",
            Rule::DuplicateVersion => "E201",
            Rule::MissingDate => "E202",
            Rule::InvalidDate => "E203",
            Rule::InvalidYanked => "E204",
            Rule::UndefinedLinkReference => "E300",
        }
    }

    /// What the rule is about.
    pub open spec fn spec_doc(self) -> Seq<char> {
        match self {
            Rule::MissingTitle => "The title is missing."@,
            Rule::DuplicateTitle => "There is a duplicate `h1` in the document."@,
            Rule::MissingUnreleased => "The document does not have an unreleased section."@,
            Rule::DuplicateUnreleased => {
                "There is more than one unreleased section heading in the document."@
            },
            Rule::InvalidUnreleasedPosition => {
                "The unreleased section is not the first section in the document."@
            },
            Rule::InvalidTitle => "The title is not plain text."@,
            Rule::InvalidSectionHeading => {
                "The `h2` is not a valid unreleased or release section heading."@
            },
            Rule::EmptySection => {
                "A section is unexpectedly empty (e.g. a release with no changes)."@
            },
            Rule::UnknownChangeType => "The change section heading is not a known change type."@,
            Rule::DuplicateChangeType => {
                "There is more than one change section with the same change type."@
            },
            Rule::InvalidReleaseOrder => "The release is not in reverse chronological order."@,
            Rule::DuplicateVersion => {
                "There is more than one release for this version in the document."@
            },
            Rule::MissingDate => "The release is missing a date"@,
            Rule::InvalidDate => "The date is not in ISO 8601 format."@,
            Rule::InvalidYanked => "The yanked token does not match `[YANKED]`."@,
            Rule::UndefinedLinkReference => "The target reference does not exist."@,
        }
    }

    /// What the rule is about.
    pub fn doc(&self) -> (doc: &'static str)
        ensures
            doc@ == self.spec_doc(),
    {
        match self {
            Rule::MissingTitle => "The title is missing.",
            Rule::DuplicateTitle => "There is a duplicate `h1` in the document.",
            Rule::MissingUnreleased => "The document does not have an unreleased section.",
            Rule::DuplicateUnreleased => {
                "There is more than one unreleased section heading in the document."
            },
            Rule::InvalidUnreleasedPosition => {
                "The unreleased section is not the first section in the document."
            },
            Rule::InvalidTitle => "The title is not plain text.",
            Rule::InvalidSectionHeading => {
                "The `h2` is not a valid unreleased or release section heading."
            },
            Rule::EmptySection => {
                "A section is unexpectedly empty (e.g. a release with no changes)."
            },
            Rule::UnknownChangeType => "The change section heading is not a known change type.",
            Rule::DuplicateChangeType => {
                "There is more than one change section with the same change type."
            },
            Rule::InvalidReleaseOrder => "The release is not in reverse chronological order.",
            Rule::DuplicateVersion => {
                "There is more than one release for this version in the document."
            },
            Rule::MissingDate => "The release is missing a date",
            Rule::InvalidDate => "The date is not in ISO 8601 format.",
            Rule::InvalidYanked => "The yanked token does not match `[YANKED]`.",
            Rule::UndefinedLinkReference => "The target reference does not exist.",
        }
    }

    /// What stands before the place of the source text in the message of
    /// the rule: the whole message, if the message has no such place.
    pub open spec fn spec_message_head(self) -> Seq<char> {
        match self {
            Rule::MissingTitle => "Missing title"@,
            Rule::DuplicateTitle => "Duplicate title `"@,
            Rule::MissingUnreleased => "Missing unreleased heading"@,
            Rule::DuplicateUnreleased => "Duplicate unreleased section `"@,
            Rule::InvalidUnreleasedPosition => "Unreleased section must come before releases."@,
            Rule::InvalidTitle => "Invalid title `"@,
            Rule::InvalidSectionHeading => "Invalid heading `"@,
            Rule::EmptySection => "Empty section"@,
            Rule::UnknownChangeType => "Invalid change type `"@,
            Rule::DuplicateChangeType => "Duplicate change type `"@,
            Rule::InvalidReleaseOrder => "Release out of order `"@,
            Rule::DuplicateVersion => "Duplicate version `"@,
            Rule::MissingDate => "Release missing date"@,
            Rule::InvalidDate => "Invalid date `"@,
            Rule::InvalidYanked => "Invalid [YANKED] format `"@,
            Rule::UndefinedLinkReference => "Link reference does not exist: `"@,
        }
    }

    /// Whether the message of the rule has a place for the source text.
    pub open spec fn spec_quotes_source(self) -> bool {
        match self {
            Rule::MissingTitle => false,
            Rule::MissingUnreleased => false,
            Rule::InvalidUnreleasedPosition => false,
            Rule::EmptySection => false,
            Rule::MissingDate => false,
            _ => true,
        }
    }

    /// The message of the rule. `{}` marks the place of the source text that
    /// a diagnostic is about.
    pub open spec fn spec_message(self) -> Seq<char> {
        if self.spec_quotes_source() {
            self.spec_message_head() + "{}"@ + "`"@
        } else {
            self.spec_message_head()
        }
    }

    /// What stands before the place of the source text in the message of
    /// the rule.
    pub fn message_head(&self) -> (head: &'static str)
        ensures
            head@ == self.spec_message_head(),
    {
        match self {
            Rule::MissingTitle => "Missing title",
            Rule::DuplicateTitle => "Duplicate title `",
            Rule::MissingUnreleased => "Missing unreleased heading",
            Rule::DuplicateUnreleased => "Duplicate unreleased section `",
            Rule::InvalidUnreleasedPosition => "Unreleased section must come before releases.",
            Rule::InvalidTitle => "Invalid title `",
            Rule::InvalidSectionHeading => "Invalid heading `",
            Rule::EmptySection => "Empty section",
            Rule::UnknownChangeType => "Invalid change type `",
            Rule::DuplicateChangeType => "Duplicate change type `",
            Rule::InvalidReleaseOrder => "Release out of order `",
            Rule::DuplicateVersion => "Duplicate version `",
            Rule::MissingDate => "Release missing date",
            Rule::InvalidDate => "Invalid date `",
            Rule::InvalidYanked => "Invalid [YANKED] format `",
            Rule::UndefinedLinkReference => "Link reference does not exist: `",
        }
    }

    /// Whether the message of the rule has a place for the source text.
    pub fn quotes_source(&self) -> (quotes: bool)
        ensures
            quotes == self.spec_quotes_source(),
    {
        match self {
            Rule::MissingTitle => false,
            Rule::MissingUnreleased => false,
            Rule::InvalidUnreleasedPosition => false,
            Rule::EmptySection => false,
            Rule::MissingDate => false,
            _ => true,
        }
    }

    /// The message of the rule. `{}` marks the place of the source text that
    /// a diagnostic is about.
    pub fn message(&self) -> (message: &'static str)
        ensures
            message@ == self.spec_message(),
    {
        proof {
            lemma_messages();
        }
        match self {
            Rule::MissingTitle => "Missing title",
            Rule::DuplicateTitle => "Duplicate title `{}`",
            Rule::MissingUnreleased => "Missing unreleased heading",
            Rule::DuplicateUnreleased => "Duplicate unreleased section `{}`",
            Rule::InvalidUnreleasedPosition => "Unreleased section must come before releases.",
            Rule::InvalidTitle => "Invalid title `{}`",
            Rule::InvalidSectionHeading => "Invalid heading `{}`",
            Rule::EmptySection => "Empty section",
            Rule::UnknownChangeType => "Invalid change type `{}`",
            Rule::DuplicateChangeType => "Duplicate change type `{}`",
            Rule::InvalidReleaseOrder => "Release out of order `{}`",
            Rule::DuplicateVersion => "Duplicate version `{}`",
            Rule::MissingDate => "Release missing date",
            Rule::InvalidDate => "Invalid date `{}`",
            Rule::InvalidYanked => "Invalid [YANKED] format `{}`",
            Rule::UndefinedLinkReference => "Link reference does not exist: `{}`",
        }
    }
}

/// Each message that quotes the source is its head, the mark `{}` and a
/// closing quote.
proof fn lemma_messages()
    ensures
        "Duplicate title `{}`"@ == "Duplicate title `"@ + "{}"@ + "`"@,
        "Duplicate unreleased section `{}`"@ == "Duplicate unreleased section `"@ + "{}"@ + "`"@,
        "Invalid title `{}`"@ == "Invalid title `"@ + "{}"@ + "`"@,
        "Invalid heading `{}`"@ == "Invalid heading `"@ + "{}"@ + "`"@,
        "Invalid change type `{}`"@ == "Invalid change type `"@ + "{}"@ + "`"@,
        "Duplicate change type `{}`"@ == "Duplicate change type `"@ + "{}"@ + "`"@,
        "Release out of order `{}`"@ == "Release out of order `"@ + "{}"@ + "`"@,
        "Duplicate version `{}`"@ == "Duplicate version `"@ + "{}"@ + "`"@,
        "Invalid date `{}`"@ == "Invalid date `"@ + "{}"@ + "`"@,
        "Invalid [YANKED] format `{}`"@ == "Invalid [YANKED] format `"@ + "{}"@ + "`"@,
        "Link reference does not exist: `{}`"@ == "Link reference does not exist: `"@ + "{}"@
            + "`"@,
{
    reveal_strlit("{}");
    reveal_strlit("`");
    reveal_strlit("Duplicate title `{}`");
    reveal_strlit("Duplicate title `");
    assert("Duplicate title `{}`"@ =~= "Duplicate title `"@ + "{}"@ + "`"@);
    reveal_strlit("Duplicate unreleased section `{}`");
    reveal_strlit("Duplicate unreleased section `");
    assert("Duplicate unreleased section `{}`"@ =~= "Duplicate unreleased section `"@ + "{}"@
        + "`"@);
    reveal_strlit("Invalid title `{}`");
    reveal_strlit("Invalid title `");
    assert("Invalid title `{}`"@ =~= "Invalid title `"@ + "{}"@ + "`"@);
    reveal_strlit("Invalid heading `{}`");
    reveal_strlit("Invalid heading `");
    assert("Invalid heading `{}`"@ =~= "Invalid heading `"@ + "{}"@ + "`"@);
    reveal_strlit("Invalid change type `{}`");
    reveal_strlit("Invalid change type `");
    assert("Invalid change type `{}`"@ =~= "Invalid change type `"@ + "{}"@ + "`"@);
    reveal_strlit("Duplicate change type `{}`");
    reveal_strlit("Duplicate change type `");
    assert("Duplicate change type `{}`"@ =~= "Duplicate change type `"@ + "{}"@ + "`"@);
    reveal_strlit("Release out of order `{}`");
    reveal_strlit("Release out of order `");
    assert("Release out of order `{}`"@ =~= "Release out of order `"@ + "{}"@ + "`"@);
    reveal_strlit("Duplicate version `{}`");
    reveal_strlit("Duplicate version `");
    assert("Duplicate version `{}`"@ =~= "Duplicate version `"@ + "{}"@ + "`"@);
    reveal_strlit("Invalid date `{}`");
    reveal_strlit("Invalid date `");
    assert("Invalid date `{}`"@ =~= "Invalid date `"@ + "{}"@ + "`"@);
    reveal_strlit("Invalid [YANKED] format `{}`");
    reveal_strlit("Invalid [YANKED] format `");
    assert("Invalid [YANKED] format `{}`"@ =~= "Invalid [YANKED] format `"@ + "{}"@ + "`"@);
    reveal_strlit("Link reference does not exist: `{}`");
    reveal_strlit("Link reference does not exist: `");
    assert("Link reference does not exist: `{}`"@ =~= "Link reference does not exist: `"@ + "{}"@
        + "`"@);
}

/// No two rules have the same code.
pub proof fn lemma_codes_differ(first: Rule, second: Rule)
    requires
        first != second,
    ensures
        first.spec_code() != second.spec_code(),
{
    reveal_strlit("E001");
    reveal_strlit("E002");
    reveal_strlit("E003");
    reveal_strlit("E004");
    reveal_strlit("E005");
    reveal_strlit("E100");
    reveal_strlit("E101");
    reveal_strlit("E102");
    reveal_strlit("E103");
    reveal_strlit("E104");
    reveal_strlit("E200");
    reveal_strlit("E201");
    reveal_strlit("E202");
    reveal_strlit("E203");
    reveal_strlit("E204");
    reveal_strlit("E300");
    let a = first.spec_code();
    let b = second.spec_code();
    assert(a[1] != b[1] || a[2] != b[2] || a[3] != b[3]);
}

/// Every rule is the rule at its place.
pub proof fn lemma_rule_at_index(rule: Rule)
    ensures
        0 <= rule.spec_index() < RULE_COUNT,
        Rule::spec_at(rule.spec_index()) == rule,
{
}

impl Rule {
    /// The rule with the code `code`, if there is one. Case matters.
    pub fn from_code(code: &str) -> (found: Option<Rule>)
        ensures
            found matches Some(rule) ==> rule.spec_code() == code@,
            found is None ==> forall|rule: Rule| rule.spec_code() != code@,
    {
        let mut index: usize = 0;
        while index < RULE_COUNT
            invariant
                index <= RULE_COUNT,
                forall|i: int| 0 <= i < index ==> Rule::spec_at(i).spec_code() != code@,
            decreases RULE_COUNT - index,
        {
            let rule = Rule::at(index);
            if str_eq(rule.code(), code) {
                return Some(rule);
            }
            index += 1;
        }
        proof {
            assert forall|rule: Rule| rule.spec_code() != code@ by {
                lemma_rule_at_index(rule);
            }
        }
        None
    }

    /// The rule with the code `code`, whatever the case of its letter, or a
    /// message that says that there is no such rule.
    pub fn try_from_code(code: &str) -> (found: Result<Rule, String>)
        ensures
            found matches Ok(rule) ==> rule.spec_code() == uppercase(code@),
            found matches Err(message) ==> {
                &&& forall|rule: Rule| rule.spec_code() != uppercase(code@)
                &&& message@ == "invalid rule code '"@ + code@ + "'"@
            },
    {
        let upper = code.to_uppercase();
        match Rule::from_code(upper.as_str()) {
            Some(rule) => Ok(rule),
            None => Err(String::from_str("invalid rule code '").concat(code).concat("'")),
        }
    }
}

/// A text in upper case, as `str::to_uppercase` gives it.
pub uninterp spec fn uppercase(text: Seq<char>) -> Seq<char>;

/// `str::to_uppercase` gives the upper case equivalent of a text as a new
/// string. Which character is the upper case of which is left to std: the
/// result is named.
pub assume_specification[ str::to_uppercase ](text: &str) -> (upper: String)
    ensures
        upper@ == uppercase(text@),
;

} // verus!
