use test_faker::config::{Config, RunnerConfig};
use test_faker::exec::{exec_cmd, ExecError};
use test_faker::faker::ParamError;
use test_faker::text::join;
use test_faker::utils::yaml::{
    parse_position, split_path, yaml_get_value_by_path, yaml_get_value_type, Document, Number,
};
use test_faker::verification::VerifyError;
use test_faker::verifiers::file::file::{first_change, DiffKind, FileComparator};

fn text(s: &str) -> Document {
    Document::String(s.to_string())
}

fn sample() -> Document {
    // a:
    //   - b: 1
    //     "0": zero
    //   - ~
    // list: [x, y]
    // n: ~
    Document::Mapping(vec![
        (
            text("a"),
            Document::Sequence(vec![
                Document::Mapping(vec![
                    (text("b"), Document::Number(Number::Integer(1))),
                    (text("0"), text("zero")),
                    (Document::Number(Number::Integer(7)), text("seven")),
                ]),
                Document::Null,
            ]),
        ),
        (text("list"), Document::Sequence(vec![text("x"), text("y")])),
        (text("n"), Document::Null),
        (text(""), Document::Bool(true)),
    ])
}

fn kind_at(document: &Document, path: &str) -> Option<String> {
    yaml_get_value_by_path(document, path).map(yaml_get_value_type)
}

fn string_at(document: &Document, path: &str) -> Option<String> {
    match yaml_get_value_by_path(document, path) {
        Some(Document::String(s)) => Some(s.clone()),
        _ => None,
    }
}

#[test]
fn kinds_have_names() {
    assert_eq!(yaml_get_value_type(&Document::Null), "null");
    assert_eq!(yaml_get_value_type(&Document::Bool(false)), "bool");
    assert_eq!(yaml_get_value_type(&Document::Number(Number::Float(0))), "number");
    assert_eq!(yaml_get_value_type(&text("")), "string");
    assert_eq!(yaml_get_value_type(&Document::Sequence(vec![])), "sequence");
    assert_eq!(yaml_get_value_type(&Document::Mapping(vec![])), "mapping");
}

#[test]
fn paths_split_at_every_dot() {
    assert_eq!(split_path("a.0.b"), vec!["a", "0", "b"]);
    assert_eq!(split_path("abc"), vec!["abc"]);
    assert_eq!(split_path(""), vec![""]);
    assert_eq!(split_path("a..b."), vec!["a", "", "b", ""]);
    assert_eq!(split_path(".é.x"), vec!["", "é", "x"]);
}

#[test]
fn positions_are_decimal() {
    assert_eq!(parse_position("0"), Some(0));
    assert_eq!(parse_position("42"), Some(42));
    assert_eq!(parse_position("+7"), Some(7));
    assert_eq!(parse_position("007"), Some(7));
    assert_eq!(parse_position(""), None);
    assert_eq!(parse_position("+"), None);
    assert_eq!(parse_position("-1"), None);
    assert_eq!(parse_position("1a"), None);
    assert_eq!(parse_position("++1"), None);
    assert_eq!(parse_position("١"), None);
    assert_eq!(parse_position(&usize::MAX.to_string()), Some(usize::MAX));
    assert_eq!(parse_position(&format!("{}0", usize::MAX)), None);
    assert_eq!(parse_position("18446744073709551616"), "18446744073709551616".parse::<usize>().ok());
}

#[test]
fn a_path_selects_through_mappings_and_sequences() {
    let d = sample();
    assert_eq!(kind_at(&d, ""), Some("mapping".to_string()));
    assert_eq!(kind_at(&d, "a"), Some("sequence".to_string()));
    assert_eq!(kind_at(&d, "a.0"), Some("mapping".to_string()));
    assert_eq!(kind_at(&d, "a.0.b"), Some("number".to_string()));
    assert_eq!(string_at(&d, "list.1"), Some("y".to_string()));
    assert_eq!(string_at(&d, "list.+1"), Some("y".to_string()));
    // In a mapping a number is a string key like any other.
    assert_eq!(string_at(&d, "a.0.0"), Some("zero".to_string()));
    assert_eq!(string_at(&d, "a.0.7"), None);
}

#[test]
fn a_path_that_leads_nowhere_selects_nothing() {
    let d = sample();
    assert!(yaml_get_value_by_path(&d, "missing").is_none());
    assert!(yaml_get_value_by_path(&d, "list.2").is_none());
    assert!(yaml_get_value_by_path(&d, "list.x").is_none());
    assert!(yaml_get_value_by_path(&d, "list.0.deeper").is_none());
    assert!(yaml_get_value_by_path(&d, "n").is_none());
    assert!(yaml_get_value_by_path(&d, "a.1").is_none());
    assert!(yaml_get_value_by_path(&d, "a.1.b").is_none());
    assert!(yaml_get_value_by_path(&d, "a.").is_none());
    assert!(yaml_get_value_by_path(&Document::Null, "").is_none());
    assert!(yaml_get_value_by_path(&Document::Null, "a").is_none());
    assert_eq!(kind_at(&text("leaf"), ""), Some("string".to_string()));
    assert!(yaml_get_value_by_path(&text("leaf"), "a").is_none());
}

#[test]
fn joined_with_commas() {
    assert_eq!(join(&vec![], ","), "");
    assert_eq!(join(&vec!["a".to_string()], ","), "a");
    assert_eq!(join(&vec!["a".to_string(), "".to_string(), "c".to_string()], ", "), "a, , c");
}

#[test]
fn the_scenario_file_is_resolved_against_the_scenario_directory() {
    let config = Config {
        runner: RunnerConfig { scenario_dir: "scenarios".to_string(), job_parallel: true },
    };
    assert_eq!(exec_cmd(&config, Some("scenario1.yaml")), Ok("scenarios/scenario1.yaml".to_string()));
    assert_eq!(exec_cmd(&config, Some("")), Ok("scenarios/".to_string()));
    assert_eq!(exec_cmd(&config, None), Err(ExecError::MissingScenarioFile));
    let fallback = Config { runner: RunnerConfig::default() };
    assert_eq!(fallback.runner.scenario_dir, "");
    assert!(!fallback.runner.job_parallel);
    assert_eq!(exec_cmd(&fallback, Some("x")), Ok("/x".to_string()));
}

#[test]
fn both_files_must_be_named() {
    let named = FileComparator { expected: "e.txt".to_string(), actual: "a.txt".to_string() };
    assert_eq!(named.validate_params(), Ok(()));
    let no_expected = FileComparator { expected: String::new(), actual: String::new() };
    assert_eq!(no_expected.validate_params(), Err(ParamError::ExpectedEmpty));
    let no_actual = FileComparator { expected: "e.txt".to_string(), actual: String::new() };
    assert_eq!(no_actual.validate_params(), Err(ParamError::ActualEmpty));
}

#[test]
fn files_pass_when_their_lines_are_the_same() {
    assert_eq!(FileComparator::compare(Some("a\nb\n"), Some("a\nb\n")), Ok(()));
    assert_eq!(FileComparator::compare(Some(""), Some("")), Ok(()));
    assert_eq!(
        FileComparator::compare(Some("a\nb\n"), Some("a\nc\n")),
        Err(VerifyError::Different)
    );
    assert_eq!(FileComparator::compare(Some("a\n"), Some("a\nb\n")), Err(VerifyError::Different));
    assert_eq!(FileComparator::compare(Some("a\nb\n"), Some("b\n")), Err(VerifyError::Different));
    assert_eq!(FileComparator::compare(Some("a"), Some("a\n")), Err(VerifyError::Different));
    assert_eq!(FileComparator::compare(None, Some("a")), Err(VerifyError::Unreadable));
    assert_eq!(FileComparator::compare(Some("a"), None), Err(VerifyError::Unreadable));
}

#[test]
fn the_first_change_of_a_diff() {
    assert_eq!(first_change(&vec![]), None);
    assert_eq!(first_change(&vec![DiffKind::Equal, DiffKind::Equal]), None);
    assert_eq!(first_change(&vec![DiffKind::Equal, DiffKind::Insert, DiffKind::Delete]), Some(1));
    assert_eq!(first_change(&vec![DiffKind::Replace]), Some(0));
}
