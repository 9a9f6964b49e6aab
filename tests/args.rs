use findmods::{Args, SearchKind, UsageError};

fn line(words: &[&str]) -> Vec<String> {
    words.iter().map(|w| w.to_string()).collect()
}

#[test]
fn no_argument_selects_index() {
    let args = Args::from_list(&line(&["findmods"])).unwrap();
    assert_eq!(args.search_kind, SearchKind::Index);
    let args = Args::from_list(&line(&[])).unwrap();
    assert_eq!(args.search_kind, SearchKind::Index);
}

#[test]
fn one_argument_selects_strategy() {
    let args = Args::from_list(&line(&["findmods", "tree"])).unwrap();
    assert_eq!(args.search_kind, SearchKind::Tree);
    let args = Args::from_list(&line(&["findmods", "s"])).unwrap();
    assert_eq!(args.search_kind, SearchKind::Status);
}

#[test]
fn unknown_strategy_exits_two() {
    let err = Args::from_list(&line(&["findmods", "x"])).unwrap_err();
    assert!(matches!(err, UsageError::UnknownKind(ref e) if e.name == "x"));
    assert_eq!(err.exit_code(), 2);
    assert_eq!(err.message(), "Unknown search kind x");
}

#[test]
fn two_positional_arguments_exit_one() {
    let err = Args::from_list(&line(&["findmods", "i", "t"])).unwrap_err();
    assert!(matches!(err, UsageError::TooMany));
    assert_eq!(err.exit_code(), 1);
    assert_eq!(err.message(), "Only one argument should be present");
}

#[test]
fn help_wins_anywhere() {
    for words in [
        vec!["findmods", "-h"],
        vec!["findmods", "--help"],
        vec!["findmods", "x", "y", "--help"],
        vec!["findmods", "-h", "bogus"],
    ] {
        let err = Args::from_list(&line(&words)).unwrap_err();
        assert!(matches!(err, UsageError::Help));
        assert_eq!(err.exit_code(), 0);
        assert_eq!(err.message(), "");
    }
}
