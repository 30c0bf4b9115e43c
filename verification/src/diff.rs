//! What is read of a diff, turned into what the panels show.

use crate::app::DiffType;
use crate::graph::Oid;
use crate::style::Color;
use crate::text::{collect, push_char, to_chars};
use crate::widgets::commit_view::DiffItem;
use vstd::prelude::*;

verus! {

/// The text `text` with every tab replaced by `tab`.
pub open spec fn tabs_replaced(text: Seq<char>, tab: Seq<char>) -> Seq<char>
    decreases text.len(),
{
    if text.len() == 0 {
        Seq::empty()
    } else {
        tabs_replaced(text.drop_last(), tab) + (if text.last() == '\t' {
            tab
        } else {
            seq![text.last()]
        })
    }
}

/// Replaces every tab in `text` by `tab_spaces`.
pub fn replace_tabs(text: &str, tab_spaces: &str) -> (out: String)
    ensures
        out@ == tabs_replaced(text@, tab_spaces@),
{
    let len = text.unicode_len();
    let mut out = String::new();
    let mut k: usize = 0;
    assert(text@.take(0) =~= Seq::<char>::empty());
    while k < len
        invariant
            k <= len,
            len == text@.len(),
            out@ == tabs_replaced(text@.take(k as int), tab_spaces@),
        decreases len - k,
    {
        let c = text.get_char(k);
        proof {
            assert(text@.take(k + 1).drop_last() =~= text@.take(k as int));
            assert(text@.take(k + 1).last() == c);
        }
        if c == '\t' {
            out.append(tab_spaces);
        } else {
            let ghost before = out@;
            push_char(&mut out, c);
            assert(out@ =~= before + seq![c]);
        }
        k += 1;
    }
    assert(text@.take(len as int) =~= text@);
    out
}

/// Whether a line of a diff begins with a sign that belongs to its text: one
/// of `+`, `-` and the blank.
pub open spec fn is_sign(origin: char) -> bool {
    origin == '+' || origin == '-' || origin == ' '
}

/// A line of a diff as it is shown: its sign, where it has one, and its
/// text, with tabs replaced by `tab`.
pub open spec fn shown_line(origin: char, content: Seq<char>, tab: Seq<char>) -> Seq<char> {
    tabs_replaced((if is_sign(origin) { seq![origin] } else { Seq::empty() }) + content, tab)
}

/// Builds a line of a diff as it is shown from the kind of line `origin` and
/// its text.
pub fn diff_line_text(origin: char, content: &str, tab_spaces: &str) -> (line: String)
    ensures
        line@ == shown_line(origin, content@, tab_spaces@),
{
    let mut raw = String::new();
    if origin == '+' || origin == '-' || origin == ' ' {
        push_char(&mut raw, origin);
        assert(raw@ =~= seq![origin]);
    }
    raw.append(content);
    replace_tabs(raw.as_str(), tab_spaces)
}

/// The path under which a change is listed: the old one for a file that was
/// deleted or modified, the new one for a file that was added or renamed.
pub open spec fn listed_under(tp: DiffType, old_path: Seq<char>, new_path: Seq<char>) -> Seq<char> {
    match tp {
        DiffType::Deleted | DiffType::Modified => old_path,
        DiffType::Added | DiffType::Renamed => new_path,
    }
}

/// The first character of `line` as a string; empty where the line is.
pub open spec fn first_letter(line: Seq<char>) -> Seq<char> {
    if line.len() > 0 { line.take(1) } else { line }
}

/// Builds the entry of the file list for a change. `status` is the line
/// that names the change: it begins with the letter of its kind. An unknown
/// letter is an error that names it.
pub fn diff_item(status: &str, old_path: &str, new_path: &str) -> (r: Result<DiffItem, String>)
    ensures
        match DiffType::of_letter(first_letter(status@)) {
            Some(tp) => r matches Ok(item) && item.diff_type == tp && item.file@ == listed_under(
                tp,
                old_path@,
                new_path@,
            ),
            None => r matches Err(msg) && msg@ == "Unknown diff type "@ + first_letter(status@),
        },
{
    let letter = if status.unicode_len() > 0 { status.substring_char(0, 1) } else { status };
    assert(letter@ =~= first_letter(status@));
    match DiffType::from_str(letter) {
        Ok(tp) => {
            let file = match tp {
                DiffType::Deleted | DiffType::Modified => String::from_str(old_path),
                DiffType::Added | DiffType::Renamed => String::from_str(new_path),
            };
            Ok(DiffItem { file, diff_type: tp })
        },
        Err(msg) => Err(msg),
    }
}

/// The hexadecimal digit for a number below 16.
pub open spec fn hex_digit(n: int) -> char {
    if n == 0 {
        '0'
    } else if n == 1 {
        '1'
    } else if n == 2 {
        '2'
    } else if n == 3 {
        '3'
    } else if n == 4 {
        '4'
    } else if n == 5 {
        '5'
    } else if n == 6 {
        '6'
    } else if n == 7 {
        '7'
    } else if n == 8 {
        '8'
    } else if n == 9 {
        '9'
    } else if n == 10 {
        'a'
    } else if n == 11 {
        'b'
    } else if n == 12 {
        'c'
    } else if n == 13 {
        'd'
    } else if n == 14 {
        'e'
    } else {
        'f'
    }
}

/// Digit `k` of the 64 bits `word` written in hexadecimal with sixteen
/// digits, the first being digit 0.
pub open spec fn digit_of(word: u64, k: int) -> int {
    (word as int / pow16(15 - k)) % 16
}

/// Sixteen to the power of `n`.
pub open spec fn pow16(n: int) -> int
    decreases n,
{
    if n <= 0 { 1 } else { 16 * pow16(n - 1) }
}

/// Powers of sixteen are positive, and each is sixteen times the one before.
proof fn lemma_pow16_positive(n: int)
    requires
        0 <= n,
    ensures
        pow16(n) > 0,
        pow16(n + 1) == 16 * pow16(n),
    decreases n,
{
    if n > 0 {
        lemma_pow16_positive(n - 1);
    }
}

/// The first `n` hexadecimal digits of `word`.
pub open spec fn hex_prefix(word: u64, n: int) -> Seq<char>
    decreases n,
{
    if n <= 0 {
        Seq::empty()
    } else {
        hex_prefix(word, n - 1).push(hex_digit(digit_of(word, n - 1)))
    }
}

fn hex_char(n: u64) -> (c: char)
    requires
        n < 16,
    ensures
        c == hex_digit(n as int),
{
    if n == 0 {
        '0'
    } else if n == 1 {
        '1'
    } else if n == 2 {
        '2'
    } else if n == 3 {
        '3'
    } else if n == 4 {
        '4'
    } else if n == 5 {
        '5'
    } else if n == 6 {
        '6'
    } else if n == 7 {
        '7'
    } else if n == 8 {
        '8'
    } else if n == 9 {
        '9'
    } else if n == 10 {
        'a'
    } else if n == 11 {
        'b'
    } else if n == 12 {
        'c'
    } else if n == 13 {
        'd'
    } else if n == 14 {
        'e'
    } else {
        'f'
    }
}

/// Number of hexadecimal digits by which a commit is named for short.
pub const SHORT_ID_LEN: usize = 7;

impl Oid {
    /// The first seven hexadecimal digits of the id.
    pub open spec fn short(&self) -> Seq<char> {
        hex_prefix(self.hi, SHORT_ID_LEN as int)
    }

    /// Writes the first seven hexadecimal digits of the id.
    pub fn short_hex(&self) -> (s: String)
        ensures
            s@ == self.short(),
    {
        let mut s = String::new();
        let mut k: usize = 0;
        let mut divisor: u64 = 0x1000_0000_0000_0000;
        assert(pow16(15) == 0x1000_0000_0000_0000) by {
            reveal_with_fuel(pow16, 17);
        }
        assert(s@ =~= hex_prefix(self.hi, 0));
        while k < SHORT_ID_LEN
            invariant
                k <= SHORT_ID_LEN,
                divisor == pow16(15 - k),
                s@ == hex_prefix(self.hi, k as int),
            decreases SHORT_ID_LEN - k,
        {
            proof {
                lemma_pow16_positive(15 - k);
                lemma_pow16_positive(14 - k);
            }
            let digit = (self.hi / divisor) % 16;
            push_char(&mut s, hex_char(digit));
            divisor = divisor / 16;
            k += 1;
        }
        s
    }
}

/// The line shown in place of a file that a commit does not hold.
pub fn missing_file_message(oid: Oid) -> (msg: String)
    ensures
        msg@ == "File does not exist in "@ + oid.short(),
{
    let short = oid.short_hex();
    String::from_str("File does not exist in ").concat(short.as_str())
}

/// The colour in which a line of a diff is shown: green for a line that was
/// added, red for one that was removed, blue for the head of a hunk.
pub open spec fn colour_of_line(line: Seq<char>) -> Option<Color> {
    if line.len() == 0 {
        None
    } else if line[0] == '+' {
        Some(Color::LightGreen)
    } else if line[0] == '-' {
        Some(Color::LightRed)
    } else if line[0] == '@' {
        Some(Color::LightBlue)
    } else {
        None
    }
}

/// Tells the colour in which a line of a diff is shown.
pub fn line_color(line: &str) -> (color: Option<Color>)
    ensures
        color == colour_of_line(line@),
{
    if line.unicode_len() == 0 {
        return None;
    }
    let c = line.get_char(0);
    if c == '+' {
        Some(Color::LightGreen)
    } else if c == '-' {
        Some(Color::LightRed)
    } else if c == '@' {
        Some(Color::LightBlue)
    } else {
        None
    }
}

/// Whether the mark that closes the head of a hunk, ` @@ `, stands at
/// `pos`.
pub open spec fn closes_at(line: Seq<char>, pos: int) -> bool {
    0 <= pos && pos + 4 <= line.len() && line[pos] == ' ' && line[pos + 1] == '@' && line[pos + 2]
        == '@' && line[pos + 3] == ' '
}

/// Position of the first closing mark at or after `pos`.
pub open spec fn first_close(line: Seq<char>, pos: int) -> Option<int>
    decreases line.len() - pos,
{
    if pos < 0 || pos + 4 > line.len() {
        None
    } else if closes_at(line, pos) {
        Some(pos)
    } else {
        first_close(line, pos + 1)
    }
}

/// Whether a line is the head of a hunk: it begins with `@@ `.
pub open spec fn opens_hunk(line: Seq<char>) -> bool {
    line.len() >= 3 && line[0] == '@' && line[1] == '@' && line[2] == ' '
}

/// A line of a diff without what follows the head of a hunk: a line that
/// begins with `@@ ` is cut behind the `@@` that closes the head. Any other
/// line stays whole.
pub open spec fn head_of_hunk(line: Seq<char>) -> Seq<char> {
    if opens_hunk(line) {
        match first_close(line, 0) {
            Some(pos) => line.take(pos + 3),
            None => line,
        }
    } else {
        line
    }
}

/// Cuts a line of a diff behind the head of a hunk.
pub fn hunk_header(line: &str) -> (head: String)
    ensures
        head@ == head_of_hunk(line@),
{
    let chars = to_chars(line);
    let len = chars.len();
    if len >= 3 && chars[0] == '@' && chars[1] == '@' && chars[2] == ' ' {
        let mut pos: usize = 0;
        while len - pos >= 4
            invariant
                pos <= len,
                len == chars@.len(),
                chars@ == line@,
                opens_hunk(chars@),
                first_close(chars@, 0) == first_close(chars@, pos as int),
            decreases len - pos,
        {
            if chars[pos] == ' ' && chars[pos + 1] == '@' && chars[pos + 2] == '@' && chars[pos + 3]
                == ' ' {
                let head = collect(&chars, 0, pos + 3);
                assert(chars@.subrange(0, pos + 3) =~= chars@.take(pos + 3));
                return head;
            }
            pos += 1;
        }
    }
    String::from_str(line)
}

} // verus!