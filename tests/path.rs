use findmods::{display_name, format_dir_entry, is_git};

#[test]
fn display_strips_dot_prefix() {
    assert_eq!(display_name("./foo/bar"), "foo/bar");
    assert_eq!(display_name("./a"), "a");
}

#[test]
fn display_of_root_is_dot() {
    assert_eq!(display_name("."), ".");
    assert_eq!(display_name(""), ".");
}

#[test]
fn display_keeps_other_paths() {
    assert_eq!(display_name("foo/bar"), "foo/bar");
    assert_eq!(display_name("/abs/dir"), "/abs/dir");
    assert_eq!(display_name(".hidden/x"), ".hidden/x");
    assert_eq!(display_name("./"), "");
}

#[test]
fn format_dir_entry_cases() {
    assert_eq!(format_dir_entry(Some("./x/y")), Some("x/y".to_string()));
    assert_eq!(format_dir_entry(Some(".")), Some(".".to_string()));
    assert_eq!(format_dir_entry(None), None);
}

#[test]
fn marker_name_is_exact() {
    assert!(is_git(Some(".git")));
    assert!(!is_git(Some(".GIT")));
    assert!(!is_git(Some("git")));
    assert!(!is_git(Some(".gitignore")));
    assert!(!is_git(Some("")));
    assert!(!is_git(None));
}
