use vstd::prelude::*;
use crate::editor::{blank, is_blank, strip_comment_lines, strip_comments};
use crate::survey::opt_view;

verus! {

/// Why a run ends without a commit.
#[derive(Debug, PartialEq, Eq, Structural, Clone, Copy)]
pub enum Outcome {
    NothingToCommit,
    EmptyMessage,
}

/// What a run does next.
pub enum Action {
    /// Obtain the commit message, by survey or editor.
    AskMessage,
    /// Write a commit with this message.
    WriteCommit(String),
    /// Stop without writing anything.
    Stop(Outcome),
}

/// After the status check: go on only where something is staged.
pub fn on_status(staged: bool) -> (r: Action)
    ensures
        staged ==> r is AskMessage,
        !staged ==> r == Action::Stop(Outcome::NothingToCommit),
{
    if staged {
        Action::AskMessage
    } else {
        Action::Stop(Outcome::NothingToCommit)
    }
}

/// After the message is known: commit it unless it is missing or blank.
pub fn on_message(msg: Option<String>) -> (r: Action)
    ensures
        match opt_view(msg) {
            Some(m) => if blank(m) {
                r == Action::Stop(Outcome::EmptyMessage)
            } else {
                r is WriteCommit && r->WriteCommit_0@ == m
            },
            None => r == Action::Stop(Outcome::EmptyMessage),
        },
{
    match msg {
        Some(m) => if is_blank(m.as_str()) {
            Action::Stop(Outcome::EmptyMessage)
        } else {
            Action::WriteCommit(m)
        },
        None => Action::Stop(Outcome::EmptyMessage),
    }
}

/// The message that an editor session gives: the edited text without its
/// `#` comment lines, or none where the editor was cancelled.
pub fn edited_message(edited: Option<String>) -> (r: Option<String>)
    ensures
        opt_view(r) == match opt_view(edited) {
            Some(t) => Some(strip_comments(t, '#')),
            None => None,
        },
{
    match edited {
        Some(t) => Some(strip_comment_lines(t.as_str(), '#')),
        None => None,
    }
}

} // verus!
