use watchx::filter::should_ignore;

fn rules(list: &[&str]) -> Option<Vec<String>> {
    Some(list.iter().map(|s| s.to_string()).collect())
}

#[test]
fn directory_rule_ignores_files_below_it() {
    assert!(should_ignore("build/out.js", false, &rules(&["build/"])));
}

#[test]
fn directory_rule_ignores_deep_descendants() {
    assert!(should_ignore("node_modules/pkg/lib/index.js", false, &rules(&["node_modules"])));
}

#[test]
fn unrelated_path_is_kept() {
    assert!(!should_ignore("src/main.rs", false, &rules(&["build/", "*.log"])));
}

#[test]
fn glob_rule_matches_the_path() {
    assert!(should_ignore("logs/app.log", false, &rules(&["*.log"])));
    assert!(!should_ignore("logs/app.txt", false, &rules(&["*.log"])));
}

#[test]
fn backup_files_are_ignored_without_rules() {
    assert!(should_ignore("src/main.rs~", false, &None));
    assert!(!should_ignore("src/main.rs", false, &None));
}

#[test]
fn regex_rule_between_slashes() {
    assert!(should_ignore("src/.git/HEAD", false, &rules(&["/\\.git/"])));
    assert!(should_ignore("target/debug/app", false, &rules(&["/^target$/"])));
    assert!(!should_ignore("src/lib.rs", false, &rules(&["/^target$/"])));
}

#[test]
fn malformed_rules_match_nothing() {
    assert!(!should_ignore("a[b/c.txt", false, &rules(&["a[b"])));
    assert!(!should_ignore("src/(x.rs", false, &rules(&["/(/"])));
}

#[test]
fn directory_itself_matches_with_trailing_slash() {
    assert!(should_ignore("dist", true, &rules(&["dist/"])));
    assert!(!should_ignore("dist", false, &rules(&["dist/"])));
}

#[test]
fn empty_rule_list_keeps_ordinary_paths() {
    assert!(!should_ignore("a/b/c.rs", false, &Some(Vec::new())));
}

#[test]
fn backup_directory_named_with_trailing_separator() {
    assert!(should_ignore("notes/draft~/", true, &None));
    assert!(!should_ignore("notes~/draft.md", false, &None));
}

#[test]
fn trailing_separator_is_tried_only_for_rules_ending_in_one() {
    assert!(!should_ignore("src/main.rs", false, &rules(&["src?"])));
    assert!(should_ignore("src/main.rs", false, &rules(&["src/"])));
}
