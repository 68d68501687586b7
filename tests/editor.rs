use cz::editor::{is_blank, strip_comment_lines};
use cz::run::{edited_message, on_message, on_status, Action, Outcome};

#[test]
fn comment_lines_are_removed() {
    let text = "feat: x\n# Please enter the message\n\nbody\n#end";
    assert_eq!(strip_comment_lines(text, '#'), "feat: x\n\nbody");
}

#[test]
fn only_comments_leave_nothing() {
    assert_eq!(strip_comment_lines("# a\n# b", '#'), "");
    assert_eq!(strip_comment_lines("", '#'), "");
}

#[test]
fn marker_inside_a_line_is_kept() {
    assert_eq!(strip_comment_lines("fix: y\n\nFixes #3 \n;note", ';'), "fix: y\n\nFixes #3 ");
}

#[test]
fn blank_text() {
    assert!(is_blank(""));
    assert!(is_blank(" \n\t\r"));
    assert!(!is_blank(" x "));
}

#[test]
fn nothing_staged_stops_the_run() {
    assert!(matches!(on_status(false), Action::Stop(Outcome::NothingToCommit)));
    assert!(matches!(on_status(true), Action::AskMessage));
}

#[test]
fn empty_message_stops_the_run() {
    assert!(matches!(on_message(None), Action::Stop(Outcome::EmptyMessage)));
    assert!(matches!(on_message(Some(" \n".to_string())), Action::Stop(Outcome::EmptyMessage)));
    match on_message(Some("fix: x".to_string())) {
        Action::WriteCommit(m) => assert_eq!(m, "fix: x"),
        _ => panic!("expected a commit"),
    }
}

#[test]
fn edited_message_drops_comments() {
    assert_eq!(edited_message(Some("docs: y\n# hint".to_string())), Some("docs: y".to_string()));
    assert_eq!(edited_message(None), None);
    assert!(matches!(
        on_message(edited_message(Some("# only\n# hints".to_string()))),
        Action::Stop(Outcome::EmptyMessage)
    ));
}

#[test]
fn unicode_white_space_is_blank() {
    assert!(is_blank("\u{a0}\u{2003}\u{3000}\u{85}"));
    assert!(!is_blank("\u{200b}"));
}

#[test]
fn template_guidance_is_stripped_again() {
    let msg = "feat(api): add endpoint\n\nCloses #1 ";
    let template = cz::editor::editor_template(msg);
    assert!(template.starts_with(msg));
    assert!(template.len() > msg.len());
    assert!(template[msg.len()..].lines().skip(1).all(|l| l.starts_with('#')));
    assert_eq!(strip_comment_lines(&template, '#'), msg);
    assert_eq!(edited_message(Some(template)), Some(msg.to_string()));
}
