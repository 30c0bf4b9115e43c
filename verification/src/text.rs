//! Operations on strings that the panels need.

use unicode_width::UnicodeWidthStr;
use vstd::prelude::*;

verus! {

/// Number of columns that a string takes up on a terminal.
pub uninterp spec fn display_width(s: Seq<char>) -> nat;

/// Measures the columns that a string takes up on a terminal.
///
/// Trusted: calls `UnicodeWidthStr::width` of the crate `unicode-width`,
/// which returns the displayed width of the string in columns. It goes
/// through the characters from the last to the first and adds up what its
/// tables give for each, which may depend on the characters that follow.
/// The result depends on the string alone; the contract gives it a name and
/// says no more of it.
#[verifier::external_body]
pub(crate) fn text_width(s: &str) -> (width: usize)
    ensures
        width == display_width(s@),
{
    UnicodeWidthStr::width(s)
}

/// The text `content` as a panel shows it that is scrolled sideways: from
/// character `cut` on, behind two dots that stand for the part cut off. A
/// cut behind the end leaves the dots alone. Without a cut the text is
/// shown as it is.
pub open spec fn cut_text(content: Seq<char>, cut: Option<usize>) -> Seq<char> {
    match cut {
        Some(from) => seq!['.', '.'] + (if from <= content.len() {
            content.skip(from as int)
        } else {
            Seq::empty()
        }),
        None => content,
    }
}

/// Cuts the text `content` for a panel that is scrolled sideways.
pub fn cut_entry(content: &str, cut: Option<usize>) -> (shown: String)
    ensures
        shown@ == cut_text(content@, cut),
{
    match cut {
        Some(from) => {
            proof {
                reveal_strlit("..");
                assert(".."@ =~= seq!['.', '.']);
            }
            let len = content.unicode_len();
            let dots = String::from_str("..");
            if from <= len {
                assert(content@.subrange(from as int, len as int) =~= content@.skip(from as int));
                dots.concat(content.substring_char(from, len))
            } else {
                assert(seq!['.', '.'] + Seq::<char>::empty() =~= seq!['.', '.']);
                dots
            }
        },
        None => String::from_str(content),
    }
}

/// Appends a character to a string.
///
/// Trusted: calls `String::push`, which appends the given character to the
/// end of the string.
#[verifier::external_body]
pub(crate) fn push_char(s: &mut String, c: char)
    ensures
        final(s)@ == old(s)@.push(c),
{
    s.push(c);
}

/// The lowercase form of a string.
pub uninterp spec fn lowercase_of(s: Seq<char>) -> Seq<char>;

/// Turns a string into lowercase.
///
/// Trusted: calls `str::to_lowercase`, which returns the lowercase
/// equivalent of the string as Unicode defines it. The result depends on
/// the string alone; the contract gives it a name and says no more of it.
#[verifier::external_body]
pub(crate) fn to_lowercase(s: &str) -> (r: String)
    ensures
        r@ == lowercase_of(s@),
{
    s.to_lowercase()
}

/// Whether `needle` occurs in `hay` as a run of consecutive characters.
pub open spec fn occurs_in(needle: Seq<char>, hay: Seq<char>) -> bool {
    exists|i: int|
        0 <= i <= hay.len() - needle.len() && #[trigger] hay.subrange(i, i + needle.len())
            == needle
}

/// Tells whether `needle` occurs in `hay`.
///
/// Trusted: calls `str::contains` with a string as the pattern, which
/// returns true if the pattern matches a sub-slice of the string.
#[verifier::external_body]
pub(crate) fn contains(hay: &str, needle: &str) -> (b: bool)
    ensures
        b == occurs_in(needle@, hay@),
{
    hay.contains(needle)
}

/// The string without its last character; the empty string stays empty.
pub fn without_last(s: &str) -> (r: String)
    ensures
        r@ == (if s@.len() > 0 { s@.drop_last() } else { s@ }),
{
    let n = s.unicode_len();
    if n == 0 {
        String::from_str(s)
    } else {
        String::from_str(s.substring_char(0, n - 1))
    }
}

/// Whether a character is white space.
pub uninterp spec fn whitespace(c: char) -> bool;

/// Tells whether a character is white space.
///
/// Trusted: calls `char::is_whitespace`, which returns true if the character
/// has the Unicode property `White_Space`. The result depends on the
/// character alone; the contract gives it a name and says no more of it.
#[verifier::external_body]
pub(crate) fn is_whitespace(c: char) -> (b: bool)
    ensures
        b == whitespace(c),
{
    c.is_whitespace()
}

/// Position of the first character at or after `pos` that is `stop`, or the
/// length of `s` where there is none.
pub open spec fn position_of_next(s: Seq<char>, stop: char, pos: int) -> int
    decreases s.len() - pos,
{
    if pos < 0 || pos >= s.len() {
        s.len() as int
    } else if s[pos] == stop {
        pos
    } else {
        position_of_next(s, stop, pos + 1)
    }
}

/// `position_of_next` finds the first `stop` at or after `pos`.
pub proof fn lemma_position_of_next(s: Seq<char>, stop: char, pos: int)
    requires
        0 <= pos <= s.len(),
    ensures
        pos <= position_of_next(s, stop, pos) <= s.len(),
        position_of_next(s, stop, pos) < s.len() ==> s[position_of_next(s, stop, pos)] == stop,
        forall|i: int| pos <= i < position_of_next(s, stop, pos) ==> s[i] != stop,
    decreases s.len() - pos,
{
    if pos < s.len() && s[pos] != stop {
        lemma_position_of_next(s, stop, pos + 1);
    }
}

/// Searching behind the first `from` characters of `s` finds what
/// searching `s` from there finds.
pub proof fn lemma_position_in_rest(s: Seq<char>, stop: char, from: int, pos: int)
    requires
        0 <= from <= pos <= s.len(),
    ensures
        position_of_next(s.skip(from), stop, pos - from) == position_of_next(s, stop, pos) - from,
    decreases s.len() - pos,
{
    if pos < s.len() {
        assert(s.skip(from)[pos - from] == s[pos]);
        if s[pos] != stop {
            lemma_position_in_rest(s, stop, from, pos + 1);
        }
    }
}

pub(crate) fn find_next(chars: &Vec<char>, stop: char, pos: usize) -> (found: usize)
    requires
        pos <= chars@.len(),
    ensures
        found == position_of_next(chars@, stop, pos as int),
        pos <= found <= chars@.len(),
{
    let mut idx: usize = pos;
    while idx < chars.len() && chars[idx] != stop
        invariant
            pos <= idx <= chars@.len(),
            position_of_next(chars@, stop, pos as int) == position_of_next(chars@, stop, idx as int),
        decreases chars@.len() - idx,
    {
        idx += 1;
    }
    idx
}

/// The characters of a string.
pub fn to_chars(s: &str) -> (chars: Vec<char>)
    ensures
        chars@ == s@,
{
    let len = s.unicode_len();
    let mut chars: Vec<char> = Vec::new();
    let mut k: usize = 0;
    while k < len
        invariant
            k <= len,
            len == s@.len(),
            chars@ == s@.take(k as int),
        decreases len - k,
    {
        chars.push(s.get_char(k));
        assert(chars@ =~= s@.take(k + 1));
        k += 1;
    }
    assert(s@.take(len as int) =~= s@);
    chars
}

/// The string of the characters from `from` up to `to`.
pub(crate) fn collect(chars: &Vec<char>, from: usize, to: usize) -> (s: String)
    requires
        from <= to <= chars@.len(),
    ensures
        s@ == chars@.subrange(from as int, to as int),
{
    let mut s = String::new();
    let mut k: usize = from;
    assert(s@ =~= chars@.subrange(from as int, from as int));
    while k < to
        invariant
            from <= k <= to <= chars@.len(),
            s@ == chars@.subrange(from as int, k as int),
        decreases to - k,
    {
        push_char(&mut s, chars[k]);
        assert(s@ =~= chars@.subrange(from as int, k + 1));
        k += 1;
    }
    s
}

} // verus!
