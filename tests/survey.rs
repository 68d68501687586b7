use cz::message::generate_commit_msg;
use cz::registry::{default_types, resolve_types};
use cz::survey::{non_empty_answer, parse_issue_refs, Answer, Question, Survey, SurveyAborted, SurveyResults};

fn text(s: &str) -> Answer {
    Answer::Text(s.to_string())
}

#[test]
fn new_results_are_empty() {
    let r = SurveyResults::new();
    assert_eq!(r.commit_type, "");
    assert_eq!(r.short_msg, "");
    assert!(r.scope.is_none() && r.long_msg.is_none());
    assert!(r.breaking_changes_desc.is_none() && r.affected_open_issues.is_none());
}

#[test]
fn issue_refs_split_on_single_spaces() {
    assert_eq!(parse_issue_refs("fix #123 re #4"), vec!["fix", "#123", "re", "#4"]);
    assert_eq!(parse_issue_refs("#1  #2"), vec!["#1", "", "#2"]);
    assert_eq!(parse_issue_refs(""), vec![""]);
}

#[test]
fn empty_answers_become_absent() {
    assert_eq!(non_empty_answer(Some(String::new())), None);
    assert_eq!(non_empty_answer(None), None);
    assert_eq!(non_empty_answer(Some("api".to_string())), Some("api".to_string()));
}

#[test]
fn full_survey_walk() {
    let mut s = Survey::new(default_types());
    assert_eq!(s.question(), Question::SelectType);
    assert!(s.answer(Answer::Choice(5)).is_ok());
    assert_eq!(s.question(), Question::Scope);
    assert!(s.answer(text("")).is_ok());
    assert!(s.answer(text("null pointer on empty input")).is_ok());
    assert!(s.answer(text("")).is_ok());
    assert_eq!(s.question(), Question::BreakingChange);
    assert!(s.answer(Answer::Confirm(false)).is_ok());
    assert_eq!(s.question(), Question::Issues);
    assert!(s.answer(Answer::Confirm(true)).is_ok());
    assert_eq!(s.question(), Question::IssueList);
    assert!(s.answer(text("#42")).is_ok());
    assert_eq!(s.question(), Question::Finished);
    let r = s.into_results();
    assert_eq!(r.commit_type, "fix");
    assert_eq!(r.scope, None);
    assert_eq!(r.long_msg, None);
    assert_eq!(generate_commit_msg(r), "fix: null pointer on empty input\n\nFixes #42 ");
}

#[test]
fn breaking_change_branch() {
    let custom = vec![("feat".to_string(), "A feature".to_string())];
    let mut s = Survey::new(resolve_types(false, &custom).unwrap());
    assert!(s.answer(Answer::Choice(0)).is_ok());
    assert!(s.answer(text("api")).is_ok());
    assert!(s.answer(text("drop v1")).is_ok());
    assert!(s.answer(text("Long text")).is_ok());
    assert!(s.answer(Answer::Confirm(true)).is_ok());
    assert_eq!(s.question(), Question::BreakingDescription);
    assert!(s.answer(Answer::NoInput).is_ok());
    assert!(s.answer(Answer::Confirm(false)).is_ok());
    assert_eq!(s.question(), Question::Finished);
    let r = s.into_results();
    assert_eq!(r.scope, Some("api".to_string()));
    assert_eq!(r.long_msg, Some("Long text".to_string()));
    assert_eq!(r.breaking_changes_desc, None);
    assert_eq!(r.affected_open_issues, None);
}

#[test]
fn empty_breaking_description_is_kept() {
    let mut s = Survey::new(default_types());
    for a in [Answer::Choice(4), text(""), text("x"), text(""), Answer::Confirm(true), text("")] {
        assert!(s.answer(a).is_ok());
    }
    assert_eq!(s.question(), Question::Issues);
    assert!(s.answer(Answer::Confirm(true)).is_ok());
    assert!(s.answer(Answer::NoInput).is_ok());
    let r = s.into_results();
    assert_eq!(r.breaking_changes_desc, Some(String::new()));
    assert_eq!(r.affected_open_issues, None);
    assert_eq!(generate_commit_msg(r), "feat!: x\n\nBREAKING CHANGE: ");
}

#[test]
fn cancelled_type_selection_aborts() {
    let mut s = Survey::new(default_types());
    assert_eq!(s.answer(Answer::NoInput), Err(SurveyAborted::Aborted));
    assert_eq!(s.answer(Answer::Choice(11)), Err(SurveyAborted::Aborted));
    assert_eq!(s.question(), Question::SelectType);
}

#[test]
fn cancelled_short_message_aborts() {
    let mut s = Survey::new(default_types());
    assert!(s.answer(Answer::Choice(0)).is_ok());
    assert!(s.answer(Answer::NoInput).is_ok());
    assert_eq!(s.question(), Question::ShortMessage);
    assert_eq!(s.answer(Answer::NoInput), Err(SurveyAborted::Aborted));
    assert_eq!(s.question(), Question::ShortMessage);
}

#[test]
fn finished_survey_takes_no_answer() {
    let mut s = Survey::new(default_types());
    for a in [Answer::Choice(0), text(""), text("x"), text(""), Answer::Confirm(false), Answer::Confirm(false)] {
        assert!(s.answer(a).is_ok());
    }
    assert_eq!(s.question(), Question::Finished);
    assert_eq!(s.answer(text("more")), Err(SurveyAborted::Aborted));
    assert_eq!(s.types().len(), 11);
}
