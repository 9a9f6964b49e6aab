use findmods::{Action, CheckError, Tally};

fn failed(msg: &str) -> Result<bool, CheckError> {
    Err(CheckError { message: msg.to_string() })
}

#[test]
fn clean_scan_exits_zero() {
    let mut tally = Tally::new();
    assert!(matches!(tally.observe(Ok(false), Some("a".to_string())), Action::Nothing));
    assert!(matches!(tally.observe(Ok(false), Some(".".to_string())), Action::Nothing));
    assert_eq!(tally.exit_code(), 0);
}

#[test]
fn empty_scan_exits_zero() {
    let tally = Tally::new();
    assert_eq!(tally.exit_code(), 0);
}

#[test]
fn modified_directories_print_once_each() {
    let mut tally = Tally::new();
    let outcomes = vec![
        (Ok(true), "a"),
        (Ok(false), "b"),
        (Ok(true), "c/d"),
        (failed("broken"), "e"),
        (Ok(false), "f"),
    ];
    let mut printed = Vec::new();
    for (outcome, name) in outcomes {
        if let Action::Print(line) = tally.observe(outcome, Some(name.to_string())) {
            printed.push(line);
        }
    }
    assert_eq!(printed, vec!["a".to_string(), "c/d".to_string()]);
    assert_eq!(tally.exit_code(), 100);
}

#[test]
fn failure_warns_and_counts_as_clean() {
    let mut tally = Tally::new();
    match tally.observe(failed("cannot open"), Some("x".to_string())) {
        Action::Warn { place, cause } => {
            assert_eq!(place, Some("x".to_string()));
            assert_eq!(cause, "cannot open");
        }
        other => panic!("unexpected {:?}", other),
    }
    assert_eq!(tally.exit_code(), 0);
}

#[test]
fn modified_without_name_is_not_reported() {
    let mut tally = Tally::new();
    assert!(matches!(tally.observe(Ok(true), None), Action::Nothing));
    assert_eq!(tally.exit_code(), 0);
}
