use vstd::prelude::*;
use crate::registry::{Entry, TypeRegistry};
use crate::text::{split_by, split_on, views};

verus! {

/// The result of the questioning process.
pub struct SurveyResults {
    pub commit_type: String,
    pub scope: Option<String>,
    pub short_msg: String,
    pub long_msg: Option<String>,
    pub breaking_changes_desc: Option<String>,
    pub affected_open_issues: Option<Vec<String>>,
}

/// What a survey result holds, as text.
pub struct SurveyModel {
    pub commit_type: Seq<char>,
    pub scope: Option<Seq<char>>,
    pub short_msg: Seq<char>,
    pub long_msg: Option<Seq<char>>,
    pub breaking_changes_desc: Option<Seq<char>>,
    pub affected_open_issues: Option<Seq<Seq<char>>>,
}

pub open spec fn opt_view(o: Option<String>) -> Option<Seq<char>> {
    match o {
        Some(s) => Some(s@),
        None => None,
    }
}

impl View for SurveyResults {
    type V = SurveyModel;

    open spec fn view(&self) -> SurveyModel {
        SurveyModel {
            commit_type: self.commit_type@,
            scope: opt_view(self.scope),
            short_msg: self.short_msg@,
            long_msg: opt_view(self.long_msg),
            breaking_changes_desc: opt_view(self.breaking_changes_desc),
            affected_open_issues: match self.affected_open_issues {
                Some(v) => Some(views(v@)),
                None => None,
            },
        }
    }
}

/// Empty type and messages, every optional part absent.
pub open spec fn empty_model() -> SurveyModel {
    SurveyModel {
        commit_type: Seq::empty(),
        scope: None,
        short_msg: Seq::empty(),
        long_msg: None,
        breaking_changes_desc: None,
        affected_open_issues: None,
    }
}

impl SurveyResults {
    /// Creates an empty survey result: empty type and message, nothing optional.
    pub fn new() -> (r: Self)
        ensures
            r@ == empty_model(),
    {
        SurveyResults {
            commit_type: String::new(),
            scope: None,
            short_msg: String::new(),
            long_msg: None,
            breaking_changes_desc: None,
            affected_open_issues: None,
        }
    }
}

/// An optional answer with empty input read as no answer.
pub open spec fn non_empty(o: Option<Seq<char>>) -> Option<Seq<char>> {
    match o {
        Some(s) => if s.len() == 0 { None } else { Some(s) },
        None => None,
    }
}

/// Drops an empty answer: empty input means the field is absent.
pub fn non_empty_answer(answer: Option<String>) -> (r: Option<String>)
    ensures
        opt_view(r) == non_empty(opt_view(answer)),
{
    match answer {
        Some(s) => if s.as_str().is_empty() { None } else { Some(s) },
        None => None,
    }
}

/// Splits the issue references that the user typed at each single space.
pub fn parse_issue_refs(input: &str) -> (r: Vec<String>)
    ensures
        views(r@) == split_on(input@, ' '),
        r@.len() >= 1,
{
    let r = split_by(input, ' ');
    assert(views(r@).len() == r@.len());
    r
}

/// The questions of a survey, in the order they are asked.
#[derive(Debug, PartialEq, Eq, Structural, Clone, Copy)]
pub enum Question {
    SelectType,
    Scope,
    ShortMessage,
    LongMessage,
    BreakingChange,
    BreakingDescription,
    Issues,
    IssueList,
    Finished,
}

/// What the user gave to a prompt: a selected index, a line of text, a
/// yes or no, or nothing (the prompt failed or was cancelled).
pub enum Answer {
    Choice(usize),
    Text(String),
    Confirm(bool),
    NoInput,
}

/// A mandatory question went unanswered.
#[derive(Debug, PartialEq, Eq, Structural, Clone, Copy)]
pub enum SurveyAborted {
    Aborted,
}

pub open spec fn text_of(a: Answer) -> Option<Seq<char>> {
    match a {
        Answer::Text(s) => Some(s@),
        _ => None,
    }
}

/// One step of the survey: the next question and result after answer `a`
/// to question `q`, or `None` where the answer aborts the survey.
/// Optional answers that are missing leave their field absent; missing
/// mandatory answers, and a choice outside the offered types, abort.
pub open spec fn step(types: Seq<Entry>, q: Question, m: SurveyModel, a: Answer) -> Option<
    (Question, SurveyModel),
> {
    match q {
        Question::SelectType => match a {
            Answer::Choice(i) => if i < types.len() {
                Some((Question::Scope, SurveyModel { commit_type: types[i as int].0, ..m }))
            } else {
                None
            },
            _ => None,
        },
        Question::Scope => Some(
            (Question::ShortMessage, SurveyModel { scope: non_empty(text_of(a)), ..m }),
        ),
        Question::ShortMessage => match a {
            Answer::Text(s) => Some((Question::LongMessage, SurveyModel { short_msg: s@, ..m })),
            _ => None,
        },
        Question::LongMessage => Some(
            (Question::BreakingChange, SurveyModel { long_msg: non_empty(text_of(a)), ..m }),
        ),
        Question::BreakingChange => match a {
            Answer::Confirm(true) => Some((Question::BreakingDescription, m)),
            Answer::Confirm(false) => Some((Question::Issues, m)),
            _ => None,
        },
        Question::BreakingDescription => Some(
            (Question::Issues, SurveyModel { breaking_changes_desc: text_of(a), ..m }),
        ),
        Question::Issues => match a {
            Answer::Confirm(true) => Some((Question::IssueList, m)),
            Answer::Confirm(false) => Some((Question::Finished, m)),
            _ => None,
        },
        Question::IssueList => Some(
            (
                Question::Finished,
                SurveyModel {
                    affected_open_issues: match text_of(a) {
                        Some(t) => Some(split_on(t, ' ')),
                        None => None,
                    },
                    ..m
                },
            ),
        ),
        Question::Finished => None,
    }
}

/// Scope and long message are never present and empty.
pub open spec fn normalized(m: SurveyModel) -> bool {
    m.scope != Some(Seq::<char>::empty()) && m.long_msg != Some(Seq::<char>::empty())
}

/// A survey in progress over a registry of commit types.
pub struct Survey {
    types: TypeRegistry,
    question: Question,
    results: SurveyResults,
}

impl Survey {
    pub closed spec fn types_view(&self) -> Seq<Entry> {
        self.types@
    }

    pub closed spec fn current(&self) -> Question {
        self.question
    }

    pub closed spec fn results_view(&self) -> SurveyModel {
        self.results@
    }

    /// Starts a survey at the type selection, with an empty result.
    pub fn new(types: TypeRegistry) -> (r: Survey)
        ensures
            r.types_view() == types@,
            r.current() == Question::SelectType,
            r.results_view() == empty_model(),
            normalized(r.results_view()),
    {
        let results = SurveyResults::new();
        Survey { types, question: Question::SelectType, results }
    }

    pub fn question(&self) -> (r: Question)
        ensures
            r == self.current(),
    {
        self.question
    }

    pub fn types(&self) -> (r: &TypeRegistry)
        ensures
            r@ == self.types_view(),
    {
        &self.types
    }

    /// Takes the answer to the current question and moves to the next one.
    /// An answer that aborts the survey leaves it as it was.
    pub fn answer(&mut self, a: Answer) -> (r: Result<(), SurveyAborted>)
        ensures
            final(self).types_view() == old(self).types_view(),
            normalized(old(self).results_view()) ==> normalized(final(self).results_view()),
            match step(old(self).types_view(), old(self).current(), old(self).results_view(), a) {
                Some((q, m)) => r is Ok && final(self).current() == q && final(self).results_view()
                    == m,
                None => r is Err && final(self).current() == old(self).current()
                    && final(self).results_view() == old(self).results_view(),
            },
    {
        match self.question {
            Question::SelectType => match a {
                Answer::Choice(i) => {
                    if i < self.types.len() {
                        self.results.commit_type = self.types.id(i);
                        self.question = Question::Scope;
                        Ok(())
                    } else {
                        Err(SurveyAborted::Aborted)
                    }
                },
                _ => Err(SurveyAborted::Aborted),
            },
            Question::Scope => {
                self.results.scope = non_empty_answer(text_answer(a));
                self.question = Question::ShortMessage;
                Ok(())
            },
            Question::ShortMessage => match a {
                Answer::Text(s) => {
                    self.results.short_msg = s;
                    self.question = Question::LongMessage;
                    Ok(())
                },
                _ => Err(SurveyAborted::Aborted),
            },
            Question::LongMessage => {
                self.results.long_msg = non_empty_answer(text_answer(a));
                self.question = Question::BreakingChange;
                Ok(())
            },
            Question::BreakingChange => match a {
                Answer::Confirm(yes) => {
                    self.question = if yes {
                        Question::BreakingDescription
                    } else {
                        Question::Issues
                    };
                    Ok(())
                },
                _ => Err(SurveyAborted::Aborted),
            },
            Question::BreakingDescription => {
                self.results.breaking_changes_desc = text_answer(a);
                self.question = Question::Issues;
                Ok(())
            },
            Question::Issues => match a {
                Answer::Confirm(yes) => {
                    self.question = if yes {
                        Question::IssueList
                    } else {
                        Question::Finished
                    };
                    Ok(())
                },
                _ => Err(SurveyAborted::Aborted),
            },
            Question::IssueList => {
                self.results.affected_open_issues = match text_answer(a) {
                    Some(t) => Some(parse_issue_refs(t.as_str())),
                    None => None,
                };
                self.question = Question::Finished;
                Ok(())
            },
            Question::Finished => Err(SurveyAborted::Aborted),
        }
    }

    /// Ends the survey and hands out its result.
    pub fn into_results(self) -> (r: SurveyResults)
        ensures
            r@ == self.results_view(),
    {
        self.results
    }
}

/// The text of an answer, if it is one.
fn text_answer(a: Answer) -> (r: Option<String>)
    ensures
        opt_view(r) == text_of(a),
{
    match a {
        Answer::Text(s) => Some(s),
        _ => None,
    }
}

} // verus!
