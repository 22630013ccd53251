use notabene::cli::config::{default_select, Config, Lint};
use notabene::cli::report::OutputFormat;
use notabene::{Rule, RuleSet};

#[test]
fn test_default() {
    assert_eq!(
        Config::default(),
        Config {
            lint: Lint {
                select: Some(RuleSet::new(&Rule::ALL)),
                ignore: Some(RuleSet::new(&[])),
                output_format: Some(OutputFormat::Short),
            }
        },
    );
}

#[test]
fn test_merge() {
    let empty = Config::empty();
    let default = Config::default();
    assert_eq!(empty.merge(&default), default);
    assert_eq!(default.merge(&empty), default);
    let user = Config {
        lint: Lint {
            select: Some(RuleSet::new(&[Rule::MissingTitle])),
            ignore: Some(RuleSet::new(&[Rule::InvalidTitle])),
            output_format: Some(OutputFormat::Json),
        },
    };
    assert_eq!(default.merge(&user), user);
}

#[test]
fn test_merge_keeps_what_is_unset() {
    let base = Config {
        lint: Lint {
            select: Some(RuleSet::new(&[Rule::MissingTitle])),
            ignore: None,
            output_format: Some(OutputFormat::Full),
        },
    };
    let other = Config {
        lint: Lint {
            select: None,
            ignore: Some(RuleSet::new(&[Rule::MissingDate])),
            output_format: None,
        },
    };
    assert_eq!(
        base.merge(&other),
        Config {
            lint: Lint {
                select: Some(RuleSet::new(&[Rule::MissingTitle])),
                ignore: Some(RuleSet::new(&[Rule::MissingDate])),
                output_format: Some(OutputFormat::Full),
            }
        }
    );
}

#[test]
fn test_empty_and_new() {
    assert_eq!(Config::new(), Config::default());
    assert_eq!(
        Config::empty(),
        Config {
            lint: Lint {
                select: None,
                ignore: None,
                output_format: None
            }
        }
    );
    assert_eq!(Lint::empty(), Config::empty().lint);
    assert_eq!(default_select(), Some(RuleSet::all()));
}

#[test]
fn test_rules_of_config() {
    assert_eq!(Config::default().rules(), Some(RuleSet::all()));
    assert_eq!(Config::empty().rules(), None);
    let config = Config {
        lint: Lint {
            select: Some(RuleSet::new(&[Rule::MissingTitle, Rule::MissingDate])),
            ignore: Some(RuleSet::new(&[Rule::MissingDate, Rule::InvalidDate])),
            output_format: None,
        },
    };
    assert_eq!(config.rules(), Some(RuleSet::new(&[Rule::MissingTitle])));
}
