use std::collections::HashSet;

use notabene::cli::{parse_output_format, parse_rule_code};
use notabene::cli::report::Format;
use notabene::profile::Profile;
use notabene::{Rule, RuleSet};

#[test]
fn test_rule_codes_unique() {
    let mut codes = HashSet::new();
    let mut duplicates: Vec<&str> = vec![];
    for rule in Rule::ALL.iter() {
        if !codes.insert(rule.code()) {
            duplicates.push(rule.code());
        }
    }
    assert_eq!(duplicates, Vec::<&str>::new());
}

#[test]
fn test_rule_codes() {
    let codes: Vec<&str> = Rule::ALL.iter().map(|rule| rule.code()).collect();
    assert_eq!(
        codes,
        vec![
            "E001", "E002", "E003", "E004", "E005", "E100", "E101", "E102", "E103", "E104",
            "E200", "E201", "E202", "E203", "E204", "E300"
        ]
    );
}

#[test]
fn test_rule_places() {
    for (place, rule) in Rule::ALL.iter().enumerate() {
        assert_eq!(rule.index(), place);
        assert_eq!(Rule::at(place), *rule);
    }
}

#[test]
fn test_rule_messages() {
    assert_eq!(Rule::MissingTitle.message(), "Missing title");
    assert_eq!(Rule::DuplicateTitle.message(), "Duplicate title `{}`");
    assert_eq!(
        Rule::UndefinedLinkReference.message(),
        "Link reference does not exist: `{}`"
    );
    for rule in Rule::ALL.iter() {
        let message = rule.message();
        if rule.quotes_source() {
            assert_eq!(message, format!("{}{{}}`", rule.message_head()));
        } else {
            assert_eq!(message, rule.message_head());
            assert!(!message.contains("{}"));
        }
        assert!(!rule.doc().is_empty());
    }
}

#[test]
fn test_rule_from_code() {
    assert_eq!(Rule::from_code("E100"), Some(Rule::InvalidTitle));
    assert_eq!(Rule::from_code("e100"), None);
    assert_eq!(Rule::from_code("E999"), None);
    assert_eq!(Rule::from_code(""), None);
    assert_eq!(Rule::try_from_code("e203"), Ok(Rule::InvalidDate));
    assert_eq!(
        Rule::try_from_code("x1"),
        Err("invalid rule code 'x1'".to_string())
    );
}

#[test]
fn test_parse_rule_code() {
    assert_eq!(parse_rule_code("E001"), Ok(Rule::MissingTitle));
    assert_eq!(parse_rule_code("e300"), Ok(Rule::UndefinedLinkReference));
    assert_eq!(
        parse_rule_code("E999"),
        Err(
            "E001, E002, E003, E004, E005, E100, E101, E102, E103, E104, E200, E201, E202, E203, E204, E300"
                .to_string()
        )
    );
}

#[test]
fn test_parse_output_format() {
    assert_eq!(parse_output_format("full"), Ok(Format::Full));
    assert_eq!(parse_output_format("JSON"), Ok(Format::Json));
    assert_eq!(parse_output_format("JsonL"), Ok(Format::JsonLines));
    assert_eq!(parse_output_format("short"), Ok(Format::Short));
    assert_eq!(
        parse_output_format("yaml"),
        Err("full, json, jsonl, short".to_string())
    );
}

#[test]
fn test_ruleset() {
    let ruleset = RuleSet::new(&[Rule::MissingTitle, Rule::InvalidDate, Rule::MissingTitle]);
    for rule in Rule::ALL.iter() {
        assert_eq!(
            ruleset.is_enabled(*rule),
            *rule == Rule::MissingTitle || *rule == Rule::InvalidDate
        );
    }
    let all = RuleSet::default();
    let none = RuleSet::empty();
    for rule in Rule::ALL.iter() {
        assert!(all.is_enabled(*rule));
        assert!(!none.is_enabled(*rule));
    }
    assert_eq!(all, RuleSet::new(&Rule::ALL));
    assert_eq!(all, RuleSet::all());
}

#[test]
fn test_ruleset_changes() {
    let mut ruleset = RuleSet::empty();
    ruleset.insert(Rule::EmptySection);
    ruleset.insert(Rule::InvalidYanked);
    assert_eq!(
        ruleset,
        RuleSet::new(&[Rule::InvalidYanked, Rule::EmptySection])
    );
    ruleset.remove(Rule::EmptySection);
    ruleset.remove(Rule::MissingDate);
    assert_eq!(ruleset, RuleSet::new(&[Rule::InvalidYanked]));
    let rest = RuleSet::all().difference(&ruleset);
    for rule in Rule::ALL.iter() {
        assert_eq!(rest.is_enabled(*rule), *rule != Rule::InvalidYanked);
    }
}

#[test]
fn test_profile() {
    let profile = Profile::new(RuleSet::new(&[Rule::MissingTitle]));
    assert!(profile.is_enabled(Rule::MissingTitle));
    assert!(!profile.is_enabled(Rule::DuplicateTitle));
    let profile = Profile::default();
    for rule in Rule::ALL.iter() {
        assert!(profile.is_enabled(*rule));
    }
}
