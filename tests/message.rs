use cz::message::{format_footer, generate_commit_msg};
use cz::survey::SurveyResults;

fn survey(commit_type: &str) -> SurveyResults {
    let mut s = SurveyResults::new();
    s.commit_type = commit_type.to_string();
    s
}

#[test]
fn fix_with_issue_scenario() {
    let mut s = survey("fix");
    s.short_msg = "null pointer on empty input".to_string();
    s.affected_open_issues = Some(vec!["#42".to_string()]);
    assert_eq!(generate_commit_msg(s), "fix: null pointer on empty input\n\nFixes #42 ");
}

#[test]
fn scope_is_rendered_in_parentheses() {
    let mut s = survey("feat");
    s.scope = Some("api".to_string());
    s.short_msg = "add endpoint".to_string();
    assert_eq!(generate_commit_msg(s), "feat(api): add endpoint");
}

#[test]
fn empty_breaking_change_still_marks_header() {
    let mut s = survey("feat");
    s.short_msg = "drop v1".to_string();
    s.breaking_changes_desc = Some(String::new());
    assert_eq!(generate_commit_msg(s), "feat!: drop v1\n\nBREAKING CHANGE: ");
}

#[test]
fn full_message_in_order() {
    let mut s = survey("refactor");
    s.scope = Some("core".to_string());
    s.short_msg = "split parser".to_string();
    s.long_msg = Some("Smaller pieces.".to_string());
    s.breaking_changes_desc = Some("parse() is gone".to_string());
    s.affected_open_issues = Some(vec!["re".to_string(), "#7".to_string()]);
    assert_eq!(
        generate_commit_msg(s),
        "refactor(core)!: split parser\n\nSmaller pieces.\n\nBREAKING CHANGE: parse() is gone\n\nReferenced-issues: re #7 "
    );
}

#[test]
fn feature_footer_closes() {
    let mut s = survey("feat");
    s.short_msg = "x".to_string();
    s.affected_open_issues = Some(vec!["#1".to_string()]);
    assert_eq!(generate_commit_msg(s), "feat: x\n\nCloses #1 ");
}

#[test]
fn empty_issue_list_has_no_footer() {
    let mut s = survey("fix");
    s.short_msg = "x".to_string();
    s.affected_open_issues = Some(Vec::new());
    assert_eq!(generate_commit_msg(s), "fix: x");
}

#[test]
fn empty_short_message_keeps_header() {
    let s = survey("docs");
    assert_eq!(generate_commit_msg(s), "docs: ");
}

#[test]
fn compose_is_deterministic() {
    let make = || {
        let mut s = survey("perf");
        s.short_msg = "faster".to_string();
        s.long_msg = Some("body".to_string());
        s.affected_open_issues = Some(vec!["#3".to_string(), "#4".to_string()]);
        s
    };
    assert_eq!(generate_commit_msg(make()), generate_commit_msg(make()));
}

#[test]
fn footer_keys_by_type() {
    let issues = vec!["#9".to_string()];
    assert_eq!(format_footer("fix", &issues), "Fixes #9 ");
    assert_eq!(format_footer("feat", &issues), "Closes #9 ");
    assert_eq!(format_footer("chore", &issues), "Referenced-issues #9 ");
    assert_eq!(format_footer("fixes", &issues), "Referenced-issues #9 ");
}

#[test]
fn footer_separator_by_first_character() {
    let hash_first = vec!["#1".to_string(), "#2".to_string()];
    assert_eq!(format_footer("chore", &hash_first), "Referenced-issues #1 #2 ");
    let word_first = vec!["fix".to_string(), "#2".to_string()];
    assert_eq!(format_footer("fix", &word_first), "Fixes: fix #2 ");
    let empty_first = vec!["".to_string(), "#2".to_string()];
    assert_eq!(format_footer("feat", &empty_first), "Closes:  #2 ");
}

#[test]
fn footer_of_no_issues() {
    assert_eq!(format_footer("fix", &[]), "Fixes: ");
}
