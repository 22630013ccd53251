//! What the command line hands to the linter.
use vstd::prelude::*;
use vstd::string::StringExecFns;

use crate::rule::{uppercase, Rule};
use crate::text::str_eq;

pub mod config;
pub mod report;

use report::Format;

verus! {

/// A text in lower case, as `str::to_lowercase` gives it.
pub uninterp spec fn lowercase(text: Seq<char>) -> Seq<char>;

/// `str::to_lowercase` gives the lower case equivalent of a text as a new
/// string. Which character is the lower case of which is left to std: the
/// result is named.
pub assume_specification[ str::to_lowercase ](text: &str) -> (lower: String)
    ensures
        lower@ == lowercase(text@),
;

/// The rule that a code on the command line names, whatever the case of its
/// letter; for a code that names no rule, the codes of all rules.
pub fn parse_rule_code(code: &str) -> (found: Result<Rule, String>)
    ensures
        found matches Ok(rule) ==> rule.spec_code() == uppercase(code@),
        found matches Err(codes) ==> {
            &&& forall|rule: Rule| rule.spec_code() != uppercase(code@)
            &&& codes@
                == "E001, E002, E003, E004, E005, E100, E101, E102, E103, E104, E200, E201, E202, E203, E204, E300"@
        },
{
    let upper = code.to_uppercase();
    match Rule::from_code(upper.as_str()) {
        Some(rule) => Ok(rule),
        None => Err(
            String::from_str(
                "E001, E002, E003, E004, E005, E100, E101, E102, E103, E104, E200, E201, E202, E203, E204, E300",
            ),
        ),
    }
}

/// The output format that a lower case name stands for.
pub open spec fn format_named(name: Seq<char>) -> Option<Format> {
    if name == "full"@ {
        Some(Format::Full)
    } else if name == "json"@ {
        Some(Format::Json)
    } else if name == "jsonl"@ {
        Some(Format::JsonLines)
    } else if name == "short"@ {
        Some(Format::Short)
    } else {
        None
    }
}

/// The output format that a name on the command line stands for, whatever
/// its case; for a name that stands for none, the names of all formats.
pub fn parse_output_format(format: &str) -> (found: Result<Format, String>)
    ensures
        found matches Ok(named) ==> format_named(lowercase(format@)) == Some(named),
        found matches Err(names) ==> format_named(lowercase(format@)) is None && names@
            == "full, json, jsonl, short"@,
{
    let lower = format.to_lowercase();
    let name = lower.as_str();
    if str_eq(name, "full") {
        Ok(Format::Full)
    } else if str_eq(name, "json") {
        Ok(Format::Json)
    } else if str_eq(name, "jsonl") {
        Ok(Format::JsonLines)
    } else if str_eq(name, "short") {
        Ok(Format::Short)
    } else {
        Err(String::from_str("full, json, jsonl, short"))
    }
}

} // verus!
