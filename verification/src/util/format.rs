//! The text of the commit panel.

use crate::graph::Oid;
use crate::text::{
    collect, find_next, is_whitespace, lemma_position_in_rest, lemma_position_of_next,
    position_of_next, to_chars, whitespace,
};
use vstd::prelude::*;

verus! {

/// What is shown of a commit, as it was read.
#[derive(Debug, Clone)]
pub struct CommitText {
    /// The id of the commit as it is to be shown.
    pub id: String,
    /// The branches and tags that point to the commit, as they are to be
    /// shown.
    pub branches: String,
    /// The first two parents, where the commit has more than one.
    pub merge: Option<(Oid, Oid)>,
    pub author_name: String,
    pub author_email: String,
    /// The time of the commit as it is to be shown.
    pub date: String,
    pub message: String,
}

/// A line without its line ending: without the carriage return at its end.
pub open spec fn without_return(line: Seq<char>) -> Seq<char> {
    if line.len() > 0 && line.last() == '\r' { line.drop_last() } else { line }
}

/// The lines of a text. A line ends with a line feed, before which a
/// carriage return may stand; the last line need not end at all.
pub open spec fn lines_of(s: Seq<char>) -> Seq<Seq<char>>
    decreases s.len(),
{
    let end = position_of_next(s, '\n', 0);
    if s.len() == 0 {
        Seq::empty()
    } else if end < 0 || end >= s.len() {
        seq![s]
    } else {
        seq![without_return(s.take(end))] + lines_of(s.skip(end + 1))
    }
}

/// Whether a line holds nothing but white space.
pub open spec fn is_blank(line: Seq<char>) -> bool {
    forall|i: int| 0 <= i < line.len() ==> whitespace(#[trigger] line[i])
}

/// A line of the message as it is shown: set in by four blanks, unless it
/// is empty.
pub open spec fn set_in(line: Seq<char>) -> Seq<char> {
    if line.len() == 0 { line } else { "    "@ + line }
}

/// The line that names the parents of a merge; empty for any other commit.
pub open spec fn merge_line(merge: Option<(Oid, Oid)>) -> Seq<char> {
    match merge {
        Some((first, second)) => "  Merge: "@ + first.short() + " "@ + second.short(),
        None => Seq::empty(),
    }
}

/// The lines of the commit panel: the id, the branches, the parents of a
/// merge, the author, the date, an empty line, the message, and an empty
/// line behind a message that does not end with a blank line.
pub open spec fn formatted(commit: CommitText) -> Seq<Seq<char>> {
    let lines = lines_of(commit.message@);
    seq![
        commit.id@,
        commit.branches@,
        merge_line(commit.merge),
        "Author: "@ + commit.author_name@ + " <"@ + commit.author_email@ + ">"@,
        "Date:   "@ + commit.date@,
        Seq::empty(),
    ] + lines.map_values(|line: Seq<char>| set_in(line)) + (if lines.len() == 0 || !is_blank(
        lines.last(),
    ) {
        seq![Seq::<char>::empty()]
    } else {
        Seq::empty()
    })
}

/// Splits a text into its lines.
pub fn split_lines(text: &str) -> (lines: Vec<String>)
    ensures
        lines@.map_values(|line: String| line@) == lines_of(text@),
{
    let chars = to_chars(text);
    let mut lines: Vec<String> = Vec::new();
    let mut from: usize = 0;
    assert(chars@.skip(0) =~= chars@);
    while from < chars.len()
        invariant
            from <= chars@.len(),
            chars@ == text@,
            lines@.map_values(|line: String| line@) + lines_of(chars@.skip(from as int)) == lines_of(
                chars@,
            ),
        decreases chars@.len() - from,
    {
        let end = find_next(&chars, '\n', from);
        let ghost rest = chars@.skip(from as int);
        let ghost shown = lines@.map_values(|line: String| line@);
        proof {
            lemma_position_in_rest(chars@, '\n', from as int, from as int);
            lemma_position_of_next(chars@, '\n', from as int);
        }
        if end >= chars.len() {
            let line = collect(&chars, from, end);
            assert(line@ =~= rest);
            lines.push(line);
            assert(lines@.map_values(|line: String| line@) =~= shown.push(rest));
            assert(shown.push(rest) =~= shown + seq![rest]);
            assert(chars@.skip(chars@.len() as int) =~= Seq::<char>::empty());
            assert(shown.push(rest) + lines_of(Seq::<char>::empty()) =~= shown.push(rest));
            from = chars.len();
        } else {
            let stop: usize = if end > from && chars[end - 1] == '\r' { end - 1 } else { end };
            let line = collect(&chars, from, stop);
            proof {
                assert(rest.take(end - from) =~= chars@.subrange(from as int, end as int));
                if end > from {
                    assert(rest.take(end - from).last() == chars@[end - 1]);
                    assert(rest.take(end - from).drop_last() =~= chars@.subrange(
                        from as int,
                        end - 1,
                    ));
                }
                assert(line@ =~= without_return(rest.take(end - from)));
                assert(rest.skip(end - from + 1) =~= chars@.skip(end + 1));
            }
            lines.push(line);
            assert(lines@.map_values(|line: String| line@) =~= shown.push(line@));
            assert(shown.push(line@) + lines_of(chars@.skip(end + 1)) =~= shown + (seq![line@]
                + lines_of(chars@.skip(end + 1))));
            from = end + 1;
        }
    }
    assert(chars@.skip(chars@.len() as int) =~= Seq::<char>::empty());
    assert(lines@.map_values(|line: String| line@) + Seq::<Seq<char>>::empty()
        =~= lines@.map_values(|line: String| line@));
    lines
}

/// Tells whether a line holds nothing but white space.
pub fn blank(line: &str) -> (b: bool)
    ensures
        b == is_blank(line@),
{
    let len = line.unicode_len();
    let mut k: usize = 0;
    while k < len
        invariant
            k <= len,
            len == line@.len(),
            forall|i: int| 0 <= i < k ==> whitespace(#[trigger] line@[i]),
        decreases len - k,
    {
        if !is_whitespace(line.get_char(k)) {
            return false;
        }
        k += 1;
    }
    true
}

/// Builds the lines of the commit panel for a commit.
pub fn format(commit: &CommitText) -> (out: Vec<String>)
    ensures
        out@.map_values(|line: String| line@) == formatted(*commit),
{
    let mut out: Vec<String> = Vec::new();
    out.push(commit.id.clone());
    out.push(commit.branches.clone());
    let merge = match commit.merge {
        Some((first, second)) => String::from_str("  Merge: ").concat(
            first.short_hex().as_str(),
        ).concat(" ").concat(second.short_hex().as_str()),
        None => String::new(),
    };
    out.push(merge);
    out.push(
        String::from_str("Author: ").concat(commit.author_name.as_str()).concat(" <").concat(
            commit.author_email.as_str(),
        ).concat(">"),
    );
    out.push(String::from_str("Date:   ").concat(commit.date.as_str()));
    out.push(String::new());
    let ghost head = out@.map_values(|line: String| line@);
    assert(head =~= seq![
        commit.id@,
        commit.branches@,
        merge_line(commit.merge),
        "Author: "@ + commit.author_name@ + " <"@ + commit.author_email@ + ">"@,
        "Date:   "@ + commit.date@,
        Seq::empty(),
    ]);
    let lines = split_lines(commit.message.as_str());
    let ghost texts = lines@.map_values(|line: String| line@);
    let mut add_line = true;
    let mut k: usize = 0;
    assert(texts.take(0).map_values(|line: Seq<char>| set_in(line)) =~= Seq::<Seq<char>>::empty());
    while k < lines.len()
        invariant
            k <= lines@.len(),
            texts == lines@.map_values(|line: String| line@),
            out@.map_values(|line: String| line@) == head + texts.take(k as int).map_values(
                |line: Seq<char>| set_in(line),
            ),
            add_line == (k == 0 || !is_blank(texts[k - 1])),
        decreases lines@.len() - k,
    {
        let line = &lines[k];
        let ghost shown = out@.map_values(|line: String| line@);
        assert(texts[k as int] == line@);
        let entry = if line.as_str().unicode_len() == 0 {
            line.clone()
        } else {
            String::from_str("    ").concat(line.as_str())
        };
        assert(entry@ == set_in(line@));
        out.push(entry);
        proof {
            assert(out@.map_values(|line: String| line@) =~= shown.push(entry@));
            assert(texts.take(k + 1).map_values(|line: Seq<char>| set_in(line)) =~= texts.take(
                k as int,
            ).map_values(|line: Seq<char>| set_in(line)).push(entry@));
        }
        add_line = !blank(line.as_str());
        k += 1;
    }
    assert(texts.take(k as int) =~= texts);
    if add_line {
        let ghost shown = out@.map_values(|line: String| line@);
        out.push(String::new());
        assert(out@.map_values(|line: String| line@) =~= shown + seq![Seq::<char>::empty()]);
    } else {
        assert(out@.map_values(|line: String| line@) + Seq::<Seq<char>>::empty()
            =~= out@.map_values(|line: String| line@));
    }
    out
}

} // verus!
