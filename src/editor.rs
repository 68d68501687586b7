use vstd::prelude::*;
use crate::text::{split_by, split_on, views};

verus! {

/// A line that begins with the comment marker.
pub open spec fn is_comment(line: Seq<char>, marker: char) -> bool {
    line.len() > 0 && line[0] == marker
}

/// The lines that are not comments, in order.
pub open spec fn kept_lines(lines: Seq<Seq<char>>, marker: char) -> Seq<Seq<char>>
    decreases lines.len(),
{
    if lines.len() == 0 {
        Seq::empty()
    } else {
        let kept = kept_lines(lines.drop_last(), marker);
        if is_comment(lines.last(), marker) {
            kept
        } else {
            kept.push(lines.last())
        }
    }
}

/// The lines joined with a line break between each two.
pub open spec fn join_lines(lines: Seq<Seq<char>>) -> Seq<char>
    decreases lines.len(),
{
    if lines.len() == 0 {
        Seq::empty()
    } else if lines.len() == 1 {
        lines[0]
    } else {
        join_lines(lines.drop_last()) + seq!['\n'] + lines.last()
    }
}

/// The edited text without its comment lines.
pub open spec fn strip_comments(text: Seq<char>, marker: char) -> Seq<char> {
    join_lines(kept_lines(split_on(text, '\n'), marker))
}

/// A character of Unicode's White_Space property.
pub open spec fn is_space(c: char) -> bool {
    let u = c as u32;
    (0x9 <= u <= 0xd) || u == 0x20 || u == 0x85 || u == 0xa0 || u == 0x1680 || (0x2000 <= u
        <= 0x200a) || u == 0x2028 || u == 0x2029 || u == 0x202f || u == 0x205f || u == 0x3000
}

/// Text with nothing but white space.
pub open spec fn blank(s: Seq<char>) -> bool {
    forall|i: int| 0 <= i < s.len() ==> is_space(#[trigger] s[i])
}

/// Removes the lines of an edited message that begin with `marker` and
/// joins the others, each two separated by a line break.
pub fn strip_comment_lines(text: &str, marker: char) -> (r: String)
    ensures
        r@ == strip_comments(text@, marker),
{
    let lines = split_by(text, '\n');
    let ghost lv = views(lines@);
    let mut r = String::new();
    let mut any = false;
    let mut i: usize = 0;
    while i < lines.len()
        invariant
            i <= lines@.len(),
            lv == views(lines@),
            lv.len() == lines@.len(),
            any == (kept_lines(lv.subrange(0, i as int), marker).len() > 0),
            r@ == join_lines(kept_lines(lv.subrange(0, i as int), marker)),
        decreases lines@.len() - i,
    {
        let line = lines[i].as_str();
        let ghost sub = lv.subrange(0, i + 1);
        proof {
            assert(sub.drop_last() =~= lv.subrange(0, i as int));
            assert(sub.last() == line@);
        }
        let comment = !line.is_empty() && line.get_char(0) == marker;
        if !comment {
            let ghost kept = kept_lines(lv.subrange(0, i as int), marker);
            if any {
                r.append("\n");
                proof {
                    reveal_strlit("\n");
                }
            }
            r.append(line);
            proof {
                let k2 = kept.push(line@);
                assert(k2.drop_last() =~= kept);
                if !any {
                    assert(kept =~= Seq::<Seq<char>>::empty());
                }
            }
            any = true;
        }
        i = i + 1;
    }
    assert(lv.subrange(0, i as int) =~= lv);
    r
}

/// Whether a message holds nothing but white space, as `char::is_whitespace`
/// counts it.
pub fn is_blank(s: &str) -> (r: bool)
    ensures
        r == blank(s@),
{
    let n = s.unicode_len();
    let mut i: usize = 0;
    while i < n
        invariant
            n == s@.len(),
            i <= n,
            forall|j: int| 0 <= j < i ==> is_space(#[trigger] s@[j]),
        decreases n - i,
    {
        let u = s.get_char(i) as u32;
        let space = (0x9 <= u && u <= 0xd) || u == 0x20 || u == 0x85 || u == 0xa0 || u == 0x1680
            || (0x2000 <= u && u <= 0x200a) || u == 0x2028 || u == 0x2029 || u == 0x202f || u
            == 0x205f || u == 0x3000;
        if !space {
            return false;
        }
        i = i + 1;
    }
    true
}

/// The text handed to the editor: the message, then guidance lines that
/// begin with `#` and are removed again when the edited text is read back.
pub fn editor_template(msg: &str) -> (r: String)
    ensures
        r@ == msg@ + "\n# Edit the commit message above. Lines starting with '#' are removed;\n# an empty message aborts the commit."@,
{
    let mut r = String::from_str(msg);
    r.append("\n# Edit the commit message above. Lines starting with '#' are removed;\n# an empty message aborts the commit.");
    r
}

} // verus!
