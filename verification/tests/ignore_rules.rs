use dirclip::ignore::{split_lines_exec, IgnoreRules};
use dirclip::walk::is_hidden_name;

#[test]
fn splitting_keeps_every_line() {
    let lines = split_lines_exec("a\nb");
    assert_eq!(lines, vec!["a".to_string(), "b".to_string()]);
}

#[test]
fn final_newline_adds_no_line() {
    let lines = split_lines_exec("a\n");
    assert_eq!(lines, vec!["a".to_string()]);
}

#[test]
fn empty_text_has_no_lines() {
    let lines = split_lines_exec("");
    assert!(lines.is_empty());
}

#[test]
fn rules_skip_blank_and_comment_lines() {
    let mut rules = IgnoreRules::new();
    rules.add_rule_text("target\n# build outputs\n\nnode_modules\n");
    assert!(rules.is_excluded("target"));
    assert!(rules.is_excluded("node_modules"));
    assert!(!rules.is_excluded("# build outputs"));
    assert!(!rules.is_excluded(""));
    assert!(!rules.is_excluded("src"));
}

#[test]
fn deeper_rule_files_add_to_the_scope() {
    let mut rules = IgnoreRules::new();
    rules.add_rule_text("target\n");
    rules.add_rule_text("dist\n");
    assert!(rules.is_excluded("target"));
    assert!(rules.is_excluded("dist"));
    assert!(!rules.is_excluded("lib"));
}

#[test]
fn empty_scope_excludes_nothing() {
    let rules = IgnoreRules::new();
    assert!(!rules.is_excluded("target"));
    assert!(!rules.is_excluded(""));
}

#[test]
fn hidden_names_start_with_a_dot() {
    assert!(is_hidden_name(".git"));
    assert!(is_hidden_name("."));
    assert!(!is_hidden_name("src"));
    assert!(!is_hidden_name(""));
    assert!(!is_hidden_name("a.txt"));
}
