use cargo_cmd::{add_globbed, extend_globs, extend_manifest_paths, keep_unexcluded, manifest_paths_of, ErrorKind, GlobEntry};

fn s(x: &str) -> String {
    x.to_string()
}

fn matched(x: &str) -> GlobEntry {
    GlobEntry::Matched(s(x))
}

#[test]
fn excluded_paths_are_dropped() {
    let entries = vec![matched("crates/a"), matched("crates/b"), matched("crates/c")];
    let r = keep_unexcluded(&entries, &vec![s("crates/b")]);
    assert_eq!(r, Ok(vec![matched("crates/a"), matched("crates/c")]));
}

#[test]
fn excludes_compare_as_normalised_paths() {
    let entries = vec![matched("crates/a"), matched("crates/b")];
    let r = keep_unexcluded(&entries, &vec![s("crates//b/")]);
    assert_eq!(r, Ok(vec![matched("crates/a")]));
}

#[test]
fn excludes_do_not_match_by_prefix() {
    let entries = vec![matched("crates/ab")];
    let r = keep_unexcluded(&entries, &vec![s("crates/a"), s("crates")]);
    assert_eq!(r, Ok(vec![matched("crates/ab")]));
}

#[test]
fn unreadable_entry_is_a_glob_error() {
    let entries = vec![matched("a"), GlobEntry::Unreadable(s("permission denied")), matched("b")];
    let e = keep_unexcluded(&entries, &vec![]).unwrap_err();
    assert_eq!(e.kind, ErrorKind::GlobError(s("permission denied")));
    assert_eq!(e.message, "Error reading path for globbing");
}

#[test]
fn manifest_paths_append_the_manifest_name() {
    let r = manifest_paths_of(&vec![matched("crates/a"), matched("b")]);
    assert_eq!(r, Ok(vec![s("crates/a/Cargo.toml"), s("b/Cargo.toml")]));
}

#[test]
fn non_unicode_path_is_a_conversion_error() {
    let r = manifest_paths_of(&vec![matched("a"), GlobEntry::NotUnicode(s("\"a\\xFF\""))]);
    let e = r.unwrap_err();
    assert_eq!(e.kind, ErrorKind::PathBufConversionError(s("\"a\\xFF\"")));
    assert_eq!(e.message, "Failed to convert path to string");
}

#[test]
fn invalid_pattern_is_a_pattern_error() {
    let e = extend_manifest_paths(vec![s("crates/[")], vec![]).unwrap_err();
    assert!(matches!(e.kind, ErrorKind::PatternError(_)));
    assert_eq!(e.message, "Invalid glob pattern \"crates/[\"");
}

#[test]
fn pattern_without_matches_yields_nothing() {
    let r = extend_manifest_paths(vec![s("no-such-directory-here/*")], vec![]);
    assert_eq!(r, Ok(vec![]));
}

#[test]
fn no_patterns_yield_nothing() {
    assert_eq!(extend_globs(&vec![], &vec![s("x")]), Ok(vec![]));
}

#[test]
fn globbed_directories_become_manifest_paths() {
    let r = extend_manifest_paths(vec![s("src"), s("tests")], vec![s("tests")]);
    assert_eq!(r, Ok(vec![s("src/Cargo.toml")]));
}

#[test]
fn add_globbed_appends_kept_entries_in_order() {
    let mut all = vec![matched("x")];
    let r = add_globbed(&mut all, "crates/*", Ok(vec![matched("crates/a"), matched("crates/b")]), &vec![s("crates/a")]);
    assert_eq!(r, Ok(()));
    assert_eq!(all, vec![matched("x"), matched("crates/b")]);
}

#[test]
fn add_globbed_reports_the_pattern_that_does_not_compile() {
    let mut all = vec![matched("x")];
    let e = add_globbed(&mut all, "a/[", Err(s("invalid range pattern")), &vec![]).unwrap_err();
    assert_eq!(e.kind, ErrorKind::PatternError(s("invalid range pattern")));
    assert_eq!(e.message, "Invalid glob pattern \"a/[\"");
    assert_eq!(all, vec![matched("x")]);
}

#[test]
fn add_globbed_adds_nothing_on_an_unreadable_entry() {
    let mut all = vec![];
    let globbed = Ok(vec![matched("a"), GlobEntry::Unreadable(s("denied"))]);
    let e = add_globbed(&mut all, "*", globbed, &vec![]).unwrap_err();
    assert_eq!(e.kind, ErrorKind::GlobError(s("denied")));
    assert!(all.is_empty());
}

#[test]
fn first_invalid_pattern_is_named() {
    let e = extend_globs(&vec![s("no-such-directory-here/*"), s("a/["), s("b/[")], &vec![]).unwrap_err();
    assert!(matches!(e.kind, ErrorKind::PatternError(_)));
    assert_eq!(e.message, "Invalid glob pattern \"a/[\"");
}
