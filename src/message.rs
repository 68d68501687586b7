use vstd::prelude::*;
use crate::survey::{SurveyModel, SurveyResults};
use crate::text::views;

verus! {

/// The footer key for a commit type.
pub open spec fn footer_key(commit_type: Seq<char>) -> Seq<char> {
    if commit_type == "fix"@ {
        "Fixes"@
    } else if commit_type == "feat"@ {
        "Closes"@
    } else {
        "Referenced-issues"@
    }
}

/// The issue references, each followed by one space.
pub open spec fn issues_text(issues: Seq<Seq<char>>) -> Seq<char>
    decreases issues.len(),
{
    if issues.len() == 0 {
        Seq::empty()
    } else {
        issues_text(issues.drop_last()) + issues.last() + seq![' ']
    }
}

/// A single space before a value that starts with `#`, else a colon and a space.
pub open spec fn footer_separator(value: Seq<char>) -> Seq<char> {
    if value.len() > 0 && value[0] == '#' {
        seq![' ']
    } else {
        seq![':', ' ']
    }
}

/// The footer line that lists the affected issues.
pub open spec fn footer(commit_type: Seq<char>, issues: Seq<Seq<char>>) -> Seq<char> {
    footer_key(commit_type) + footer_separator(issues_text(issues)) + issues_text(issues)
}

/// The scope in parentheses, or nothing.
pub open spec fn scope_part(m: SurveyModel) -> Seq<char> {
    match m.scope {
        Some(scope) => "("@ + scope + ")"@,
        None => Seq::empty(),
    }
}

/// The type, the scope in parentheses if there is one, and the breaking
/// change marker if there is a breaking change: what stands before the colon.
pub open spec fn header_prefix(m: SurveyModel) -> Seq<char> {
    m.commit_type + scope_part(m) + match m.breaking_changes_desc {
        Some(_) => "!"@,
        None => Seq::empty(),
    }
}

pub open spec fn header(m: SurveyModel) -> Seq<char> {
    header_prefix(m) + ": "@ + m.short_msg
}

pub open spec fn body_part(m: SurveyModel) -> Seq<char> {
    match m.long_msg {
        Some(long_msg) => "\n\n"@ + long_msg,
        None => Seq::empty(),
    }
}

pub open spec fn breaking_part(m: SurveyModel) -> Seq<char> {
    match m.breaking_changes_desc {
        Some(desc) => "\n\nBREAKING CHANGE: "@ + desc,
        None => Seq::empty(),
    }
}

pub open spec fn footer_part(m: SurveyModel) -> Seq<char> {
    match m.affected_open_issues {
        Some(issues) => if issues.len() > 0 {
            "\n\n"@ + footer(m.commit_type, issues)
        } else {
            Seq::empty()
        },
        None => Seq::empty(),
    }
}

/// The commit message for a survey result: header, body, breaking change
/// block and footer, each present only where the survey gave its part.
pub open spec fn commit_msg(m: SurveyModel) -> Seq<char> {
    header(m) + body_part(m) + breaking_part(m) + footer_part(m)
}

/// Formats the footer that names the affected issues.
pub fn format_footer(commit_type: &str, issues_list: &[String]) -> (r: String)
    ensures
        r@ == footer(commit_type@, views(issues_list@)),
{
    let mut value = String::new();
    let mut i: usize = 0;
    while i < issues_list.len()
        invariant
            i <= issues_list@.len(),
            value@ == issues_text(views(issues_list@.subrange(0, i as int))),
        decreases issues_list@.len() - i,
    {
        let ghost pre = value@;
        value.append(issues_list[i].as_str());
        value.append(" ");
        proof {
            reveal_strlit(" ");
            let s = views(issues_list@.subrange(0, i + 1));
            assert(s.drop_last() =~= views(issues_list@.subrange(0, i as int)));
            assert(s.last() == issues_list@[i as int]@);
            assert(value@ =~= pre + issues_list@[i as int]@ + seq![' ']);
        }
        i = i + 1;
    }
    assert(issues_list@.subrange(0, i as int) =~= issues_list@);
    let fix = String::from_str("fix");
    let feat = String::from_str("feat");
    let kind = String::from_str(commit_type);
    let mut r = if kind == fix {
        String::from_str("Fixes")
    } else if kind == feat {
        String::from_str("Closes")
    } else {
        String::from_str("Referenced-issues")
    };
    let starts_with_hash = !value.as_str().is_empty() && value.as_str().get_char(0) == '#';
    if starts_with_hash {
        r.append(" ");
        proof {
            reveal_strlit(" ");
        }
    } else {
        r.append(": ");
        proof {
            reveal_strlit(": ");
        }
    }
    r.append(value.as_str());
    proof {
        assert(r@ =~= footer(commit_type@, views(issues_list@)));
    }
    r
}

/// Generates the commit message by selectively appending all parts that the
/// user entered.
pub fn generate_commit_msg(survey: SurveyResults) -> (r: String)
    ensures
        r@ == commit_msg(survey@),
{
    let ghost m = survey@;
    let mut msg = survey.commit_type.clone();
    match &survey.scope {
        Some(scope) => {
            msg.append("(");
            msg.append(scope.as_str());
            msg.append(")");
        },
        None => {},
    }
    match &survey.breaking_changes_desc {
        Some(_) => msg.append("!"),
        None => {},
    }
    assert(msg@ =~= header_prefix(m));
    msg.append(": ");
    msg.append(survey.short_msg.as_str());
    assert(msg@ =~= header(m));
    match &survey.long_msg {
        Some(long_msg) => {
            msg.append("\n\n");
            msg.append(long_msg.as_str());
        },
        None => {},
    }
    assert(msg@ =~= header(m) + body_part(m));
    match &survey.breaking_changes_desc {
        Some(desc) => {
            msg.append("\n\nBREAKING CHANGE: ");
            msg.append(desc.as_str());
        },
        None => {},
    }
    assert(msg@ =~= header(m) + body_part(m) + breaking_part(m));
    match &survey.affected_open_issues {
        Some(issues) => {
            if issues.len() > 0 {
                msg.append("\n\n");
                let f = format_footer(survey.commit_type.as_str(), issues.as_slice());
                msg.append(f.as_str());
            }
        },
        None => {},
    }
    assert(msg@ =~= commit_msg(m));
    msg
}

/// The message depends on the survey result alone: two results that hold
/// the same text give the same message.
pub proof fn lemma_compose_deterministic(a: SurveyResults, b: SurveyResults)
    requires
        a@ == b@,
    ensures
        commit_msg(a@) == commit_msg(b@),
{
}

/// With affected issues, the message ends in a footer whose key is "Fixes"
/// for a fix, "Closes" for a feature and "Referenced-issues" otherwise.
pub proof fn lemma_footer_key(m: SurveyModel)
    requires
        m.affected_open_issues is Some,
        m.affected_open_issues->0.len() > 0,
    ensures
        commit_msg(m) == header(m) + body_part(m) + breaking_part(m) + "\n\n"@ + footer_key(
            m.commit_type,
        ) + footer_separator(issues_text(m.affected_open_issues->0)) + issues_text(
            m.affected_open_issues->0,
        ),
        m.commit_type == "fix"@ ==> footer_key(m.commit_type) == "Fixes"@,
        m.commit_type == "feat"@ ==> footer_key(m.commit_type) == "Closes"@,
        m.commit_type != "fix"@ && m.commit_type != "feat"@ ==> footer_key(m.commit_type)
            == "Referenced-issues"@,
{
    reveal_strlit("fix");
    reveal_strlit("feat");
    assert(commit_msg(m) =~= header(m) + body_part(m) + breaking_part(m) + "\n\n"@ + footer_key(
        m.commit_type,
    ) + footer_separator(issues_text(m.affected_open_issues->0)) + issues_text(
        m.affected_open_issues->0,
    ));
}

/// The joined issue text starts with the first reference and a space.
proof fn lemma_issues_text_prefix(issues: Seq<Seq<char>>)
    requires
        issues.len() > 0,
    ensures
        issues_text(issues).len() >= issues[0].len() + 1,
        issues_text(issues).subrange(0, issues[0].len() as int + 1) == issues[0].push(' '),
    decreases issues.len(),
{
    if issues.len() == 1 {
        assert(issues.drop_last() =~= Seq::<Seq<char>>::empty());
        assert(issues_text(issues.drop_last()) == Seq::<char>::empty());
        assert(issues_text(issues) =~= Seq::<char>::empty() + issues[0] + seq![' ']);
        assert(issues_text(issues) =~= issues[0].push(' '));
    } else {
        lemma_issues_text_prefix(issues.drop_last());
        let t = issues_text(issues.drop_last());
        assert(issues_text(issues) == t + issues.last() + seq![' ']);
        assert(issues_text(issues).subrange(0, issues[0].len() as int + 1) =~= t.subrange(
            0,
            issues[0].len() as int + 1,
        ));
    }
}

/// The footer separator is a single space exactly when the joined issue text
/// starts with `#`, which is when the first reference does; else ": ".
pub proof fn lemma_footer_separator(commit_type: Seq<char>, issues: Seq<Seq<char>>)
    requires
        issues.len() > 0,
    ensures
        footer(commit_type, issues) == footer_key(commit_type) + footer_separator(
            issues_text(issues),
        ) + issues_text(issues),
        (issues_text(issues)[0] == '#') <==> (issues[0].len() > 0 && issues[0][0] == '#'),
        issues_text(issues)[0] == '#' ==> footer_separator(issues_text(issues)) == " "@,
        issues_text(issues)[0] != '#' ==> footer_separator(issues_text(issues)) == ": "@,
{
    reveal_strlit(" ");
    reveal_strlit(": ");
    lemma_issues_text_prefix(issues);
    let t = issues_text(issues);
    assert(t[0] == t.subrange(0, issues[0].len() as int + 1)[0]);
    assert(footer_separator(t) =~= seq![' '] || footer_separator(t) =~= seq![':', ' ']);
}

/// A breaking change description, even an empty one, puts "!" before the
/// colon of the header and a "BREAKING CHANGE: " block after the body.
pub proof fn lemma_breaking_marker(m: SurveyModel)
    requires
        m.breaking_changes_desc is Some,
    ensures
        header(m) == m.commit_type + scope_part(m) + "!"@ + ": "@ + m.short_msg,
        commit_msg(m) == header(m) + body_part(m) + "\n\nBREAKING CHANGE: "@
            + m.breaking_changes_desc->0 + footer_part(m),
{
    assert(header(m) =~= m.commit_type + scope_part(m) + "!"@ + ": "@ + m.short_msg);
    assert(commit_msg(m) =~= header(m) + body_part(m) + "\n\nBREAKING CHANGE: "@
        + m.breaking_changes_desc->0 + footer_part(m));
}

} // verus!
