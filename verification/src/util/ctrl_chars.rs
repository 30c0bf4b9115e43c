//! Text with colour codes, as the graph is printed for a terminal.
//!
//! A coloured piece of text begins with the escape character, an opening
//! bracket, numbers separated by semicolons, and the letter `m`. It ends
//! with the code that resets the colour: escape, `[0m`. White space behind
//! the reset code belongs to the piece. Text outside such pieces has no
//! colour.

use crate::style::Color;
use crate::text::{
    collect, find_next, is_whitespace, lemma_position_in_rest, lemma_position_of_next,
    position_of_next, push_char, to_chars, whitespace,
};
use vstd::prelude::*;

verus! {

/// The escape character, with which every code begins.
pub const ESC: char = '\x1B';

/// A piece of text and the numbers of the code that colours it, as
/// mathematical values.
pub struct ChunkView {
    pub ctrl: Seq<Seq<char>>,
    pub text: Seq<char>,
}

/// A piece of text with the numbers of the code that colours it.
#[derive(Debug, Clone)]
pub struct CtrlChunk {
    ctrl: Vec<String>,
    text: String,
}

impl View for CtrlChunk {
    type V = ChunkView;

    closed spec fn view(&self) -> ChunkView {
        ChunkView { ctrl: self.ctrl@.map_values(|code: String| code@), text: self.text@ }
    }
}

/// Position of the first character at or after `pos` that is not white
/// space, or the length of `s` where there is none.
pub open spec fn end_of_whitespace(s: Seq<char>, pos: int) -> int
    decreases s.len() - pos,
{
    if pos < 0 || pos >= s.len() {
        s.len() as int
    } else if !whitespace(s[pos]) {
        pos
    } else {
        end_of_whitespace(s, pos + 1)
    }
}

/// Whether the code that resets the colour stands at `pos`.
pub open spec fn resets_at(s: Seq<char>, pos: int) -> bool {
    0 <= pos && pos + 4 <= s.len() && s[pos] == ESC && s[pos + 1] == '[' && s[pos + 2] == '0' && s[
        pos + 3] == 'm'
}

/// `s` without its opening brackets.
pub open spec fn without_brackets(s: Seq<char>) -> Seq<char> {
    s.filter(|c: char| c != '[')
}

/// The pieces of `s` between its semicolons. A string of n semicolons has
/// n + 1 pieces, some of which may be empty.
pub open spec fn pieces(s: Seq<char>) -> Seq<Seq<char>>
    decreases s.len(),
{
    let cut = position_of_next(s, ';', 0);
    if cut < 0 || cut >= s.len() {
        seq![s]
    } else {
        seq![s.take(cut)] + pieces(s.skip(cut + 1))
    }
}

/// The chunk that begins at `pos`, and the position behind it.
///
/// An escape character at `pos` is passed over. What follows, up to the next
/// escape character, is the body. An empty body gives an empty chunk. A body
/// that is followed by the reset code is a coloured piece: what stands
/// before its first `m` are the numbers of the code, what stands behind is
/// the text, together with the white space that follows the reset code. Any
/// other body is text without colour.
pub open spec fn chunk_at(s: Seq<char>, pos: int) -> (ChunkView, int) {
    let start = if 0 <= pos < s.len() && s[pos] == ESC { pos + 1 } else { pos };
    let stop = position_of_next(s, ESC, start);
    let body = s.subrange(start, stop);
    if body.len() == 0 {
        (ChunkView { ctrl: Seq::empty(), text: Seq::empty() }, start)
    } else if resets_at(s, stop) {
        let m = position_of_next(body, 'm', 0);
        let end = end_of_whitespace(s, stop + 4);
        (
            ChunkView {
                ctrl: pieces(without_brackets(body.take(m))),
                text: (if m < body.len() {
                    body.skip(m + 1)
                } else {
                    Seq::empty()
                }) + s.subrange(stop + 4, end),
            },
            end,
        )
    } else {
        (ChunkView { ctrl: Seq::empty(), text: body }, stop)
    }
}

/// The chunks from `pos` to the end of `s`.
pub open spec fn chunks_from(s: Seq<char>, pos: int) -> Seq<ChunkView>
    decreases s.len() - pos,
{
    if pos < 0 || pos >= s.len() || chunk_at(s, pos).1 <= pos || chunk_at(s, pos).1 > s.len() {
        Seq::empty()
    } else {
        seq![chunk_at(s, pos).0] + chunks_from(s, chunk_at(s, pos).1)
    }
}

/// The chunks of `s`: the text before the first escape character, which may
/// be empty, and the chunks that follow.
pub open spec fn chunks_of(s: Seq<char>) -> Seq<ChunkView> {
    let first = position_of_next(s, ESC, 0);
    seq![ChunkView { ctrl: Seq::empty(), text: s.take(first) }] + chunks_from(s, first)
}

/// `end_of_whitespace` lies at or after `pos`.
pub proof fn lemma_end_of_whitespace(s: Seq<char>, pos: int)
    requires
        0 <= pos <= s.len(),
    ensures
        pos <= end_of_whitespace(s, pos) <= s.len(),
    decreases s.len() - pos,
{
    if pos < s.len() && whitespace(s[pos]) {
        lemma_end_of_whitespace(s, pos + 1);
    }
}

/// Every chunk takes up at least one character, so that reading chunk after
/// chunk comes to the end of the text.
pub proof fn lemma_chunk_advances(s: Seq<char>, pos: int)
    requires
        0 <= pos < s.len(),
    ensures
        pos < chunk_at(s, pos).1 <= s.len(),
{
    let start = if s[pos] == ESC { pos + 1 } else { pos };
    lemma_position_of_next(s, ESC, start);
    let stop = position_of_next(s, ESC, start);
    if resets_at(s, stop) {
        lemma_end_of_whitespace(s, stop + 4);
    }
}

fn find_end_of_whitespace(chars: &Vec<char>, pos: usize) -> (found: usize)
    requires
        pos <= chars@.len(),
    ensures
        found == end_of_whitespace(chars@, pos as int),
        pos <= found <= chars@.len(),
{
    let mut idx: usize = pos;
    while idx < chars.len() && is_whitespace(chars[idx])
        invariant
            pos <= idx <= chars@.len(),
            end_of_whitespace(chars@, pos as int) == end_of_whitespace(chars@, idx as int),
        decreases chars@.len() - idx,
    {
        idx += 1;
    }
    idx
}

/// The characters from `from` up to `to` without the opening brackets.
fn collect_without_brackets(chars: &Vec<char>, from: usize, to: usize) -> (out: Vec<char>)
    requires
        from <= to <= chars@.len(),
    ensures
        out@ == without_brackets(chars@.subrange(from as int, to as int)),
{
    let mut out: Vec<char> = Vec::new();
    let mut k: usize = from;
    proof {
        assert(chars@.subrange(from as int, from as int) =~= Seq::<char>::empty());
        assert(without_brackets(Seq::<char>::empty()) =~= Seq::<char>::empty()) by {
            reveal(Seq::filter);
        }
    }
    while k < to
        invariant
            from <= k <= to <= chars@.len(),
            out@ == without_brackets(chars@.subrange(from as int, k as int)),
        decreases to - k,
    {
        proof {
            let shorter = chars@.subrange(from as int, k as int);
            let longer = chars@.subrange(from as int, k + 1);
            assert(longer.drop_last() =~= shorter);
            assert(longer.last() == chars@[k as int]);
            reveal(Seq::filter);
        }
        if chars[k] != '[' {
            out.push(chars[k]);
        }
        k += 1;
    }
    out
}

/// The strings of the pieces of `codes` between its semicolons.
fn split_pieces(codes: &Vec<char>) -> (out: Vec<String>)
    ensures
        out@.map_values(|code: String| code@) == pieces(codes@),
{
    let mut out: Vec<String> = Vec::new();
    let mut from: usize = 0;
    assert(codes@.skip(0) =~= codes@);
    loop
        invariant
            from <= codes@.len(),
            out@.map_values(|code: String| code@) + pieces(codes@.skip(from as int)) == pieces(
                codes@,
            ),
        decreases codes@.len() - from,
    {
        let cut = find_next(codes, ';', from);
        let ghost rest = codes@.skip(from as int);
        let ghost shown = out@.map_values(|code: String| code@);
        proof {
            lemma_position_in_rest(codes@, ';', from as int, from as int);
            assert(position_of_next(rest, ';', 0) == cut - from);
        }
        let piece = collect(codes, from, cut);
        assert(piece@ =~= rest.take(cut - from));
        out.push(piece);
        assert(out@.map_values(|code: String| code@) =~= shown.push(piece@));
        if cut >= codes.len() {
            assert(rest.take(cut - from) =~= rest);
            assert(shown.push(rest) =~= shown + seq![rest]);
            return out;
        }
        proof {
            assert(rest.skip(cut - from + 1) =~= codes@.skip(cut + 1));
            assert(shown.push(piece@) + pieces(codes@.skip(cut + 1)) =~= shown + (seq![piece@] + pieces(
                codes@.skip(cut + 1),
            )));
        }
        from = cut + 1;
    }
}

/// The number for which a code stands, where it is one of `0` to `15`
/// written without sign or leading zero.
pub open spec fn code_number(code: Seq<char>) -> Option<u8> {
    if code.len() == 1 && '0' <= code[0] <= '9' {
        Some((code[0] as u8 - '0' as u8) as u8)
    } else if code.len() == 2 && code[0] == '1' && '0' <= code[1] <= '5' {
        Some((10 + (code[1] as u8 - '0' as u8)) as u8)
    } else {
        None
    }
}

/// The colour of the terminal's palette with the given number. Numbers 7
/// and 15 both stand for white.
pub open spec fn palette_color(number: u8) -> Option<Color> {
    if number == 0 {
        Some(Color::Black)
    } else if number == 1 {
        Some(Color::Red)
    } else if number == 2 {
        Some(Color::Green)
    } else if number == 3 {
        Some(Color::Yellow)
    } else if number == 4 {
        Some(Color::Blue)
    } else if number == 5 {
        Some(Color::Magenta)
    } else if number == 6 {
        Some(Color::Cyan)
    } else if number == 7 {
        Some(Color::White)
    } else if number == 8 {
        Some(Color::DarkGray)
    } else if number == 9 {
        Some(Color::LightRed)
    } else if number == 10 {
        Some(Color::LightGreen)
    } else if number == 11 {
        Some(Color::LightYellow)
    } else if number == 12 {
        Some(Color::LightBlue)
    } else if number == 13 {
        Some(Color::LightMagenta)
    } else if number == 14 {
        Some(Color::LightCyan)
    } else if number == 15 {
        Some(Color::White)
    } else {
        None
    }
}

/// The colour that the numbers of a code ask for: the third number names
/// it; with fewer numbers, or another third number, there is none.
pub open spec fn chunk_color(ctrl: Seq<Seq<char>>) -> Option<Color> {
    if ctrl.len() > 2 {
        match code_number(ctrl[2]) {
            Some(number) => palette_color(number),
            None => None,
        }
    } else {
        None
    }
}

fn digit(c: char) -> (d: u8)
    requires
        '0' <= c <= '9',
    ensures
        d == c as u8 - '0' as u8,
        d <= 9,
{
    c as u8 - '0' as u8
}

fn read_number(code: &str) -> (number: Option<u8>)
    ensures
        number == code_number(code@),
{
    let len = code.unicode_len();
    if len == 1 {
        let c = code.get_char(0);
        if '0' <= c && c <= '9' {
            return Some(digit(c));
        }
    } else if len == 2 {
        let c0 = code.get_char(0);
        let c1 = code.get_char(1);
        if c0 == '1' && '0' <= c1 && c1 <= '5' {
            return Some(10 + digit(c1));
        }
    }
    None
}

fn color_of(number: u8) -> (color: Option<Color>)
    ensures
        color == palette_color(number),
{
    if number == 0 {
        Some(Color::Black)
    } else if number == 1 {
        Some(Color::Red)
    } else if number == 2 {
        Some(Color::Green)
    } else if number == 3 {
        Some(Color::Yellow)
    } else if number == 4 {
        Some(Color::Blue)
    } else if number == 5 {
        Some(Color::Magenta)
    } else if number == 6 {
        Some(Color::Cyan)
    } else if number == 7 {
        Some(Color::White)
    } else if number == 8 {
        Some(Color::DarkGray)
    } else if number == 9 {
        Some(Color::LightRed)
    } else if number == 10 {
        Some(Color::LightGreen)
    } else if number == 11 {
        Some(Color::LightYellow)
    } else if number == 12 {
        Some(Color::LightBlue)
    } else if number == 13 {
        Some(Color::LightMagenta)
    } else if number == 14 {
        Some(Color::LightCyan)
    } else if number == 15 {
        Some(Color::White)
    } else {
        None
    }
}

/// The code for the numbers `code` as it is written: the escape character,
/// an opening bracket and the numbers. The numbers `38;5;`, which begin the
/// choice of a colour of the palette, are written behind a closing bracket.
pub open spec fn written_code(code: Seq<char>) -> Seq<char> {
    (if code == "38;5;"@ { seq![ESC, ']'] } else { seq![ESC, '['] }) + code
}

/// The codes `ctrl` as they are written, one behind the other.
pub open spec fn written_codes(ctrl: Seq<Seq<char>>) -> Seq<char>
    decreases ctrl.len(),
{
    if ctrl.len() == 0 {
        Seq::empty()
    } else {
        written_codes(ctrl.drop_last()) + written_code(ctrl.last())
    }
}

/// A chunk as it is written: its codes, then its text.
pub open spec fn written_chunk(chunk: ChunkView) -> Seq<char> {
    written_codes(chunk.ctrl) + chunk.text
}

/// The chunks `chunks` as they are written, one behind the other.
pub open spec fn written_chunks(chunks: Seq<ChunkView>) -> Seq<char>
    decreases chunks.len(),
{
    if chunks.len() == 0 {
        Seq::empty()
    } else {
        written_chunks(chunks.drop_last()) + written_chunk(chunks.last())
    }
}

impl CtrlChunk {
    /// Writes the chunk: each of its codes behind the escape character and
    /// a bracket, then its text.
    pub fn to_string(&self) -> (s: String)
        ensures
            s@ == written_chunk(self@),
    {
        let palette = String::from_str("38;5;");
        let mut s = String::new();
        let mut k: usize = 0;
        let ghost codes = self@.ctrl;
        assert(codes.take(0) =~= Seq::<Seq<char>>::empty());
        while k < self.ctrl.len()
            invariant
                k <= self.ctrl@.len(),
                codes == self.ctrl@.map_values(|code: String| code@),
                palette@ == "38;5;"@,
                s@ == written_codes(codes.take(k as int)),
            decreases self.ctrl@.len() - k,
        {
            let code = &self.ctrl[k];
            proof {
                assert(codes.take(k + 1).drop_last() =~= codes.take(k as int));
                assert(codes.take(k + 1).last() == code@);
            }
            let ghost before = s@;
            push_char(&mut s, ESC);
            if *code == palette {
                push_char(&mut s, ']');
            } else {
                push_char(&mut s, '[');
            }
            s.append(code.as_str());
            assert(s@ =~= before + written_code(code@));
            k += 1;
        }
        assert(codes.take(k as int) =~= codes);
        s.append(self.text.as_str());
        s
    }

    /// A piece of text without colour.
    pub fn text(text: String) -> (chunk: Self)
        ensures
            chunk@ == (ChunkView { ctrl: Seq::empty(), text: text@ }),
    {
        let chunk = Self { ctrl: Vec::new(), text };
        assert(chunk@.ctrl =~= Seq::empty());
        chunk
    }

    /// Reads the chunk that begins at `*pos` and moves `*pos` behind it. A
    /// position behind the end of the text gives an empty chunk and stays.
    pub fn parse(chars: &Vec<char>, pos: &mut usize) -> (chunk: Self)
        ensures
            *old(pos) <= chars@.len() ==> chunk@ == chunk_at(chars@, *old(pos) as int).0
                && *final(pos) == chunk_at(chars@, *old(pos) as int).1 && *old(pos) <= *final(pos)
                <= chars@.len(),
            *old(pos) < chars@.len() ==> *old(pos) < *final(pos),
            *old(pos) > chars@.len() ==> chunk@ == (ChunkView {
                ctrl: Seq::empty(),
                text: Seq::empty(),
            }) && *final(pos) == *old(pos),
    {
        let at: usize = *pos;
        if at > chars.len() {
            let chunk = Self { ctrl: Vec::new(), text: String::new() };
            assert(chunk@.ctrl =~= Seq::empty());
            return chunk;
        }
        let start: usize = if at < chars.len() && chars[at] == ESC { at + 1 } else { at };
        let stop = find_next(chars, ESC, start);
        proof {
            lemma_position_of_next(chars@, ESC, start as int);
        }
        if stop == start {
            *pos = start;
            let chunk = Self { ctrl: Vec::new(), text: String::new() };
            assert(chunk@.ctrl =~= Seq::empty());
            assert(chars@.subrange(start as int, stop as int).len() == 0);
            return chunk;
        }
        let resets = chars.len() - stop >= 4 && chars[stop] == ESC && chars[stop + 1] == '['
            && chars[stop + 2] == '0' && chars[stop + 3] == 'm';
        let ghost body = chars@.subrange(start as int, stop as int);
        if resets {
            let m = find_next(chars, 'm', start);
            let m: usize = if m < stop { m } else { stop };
            proof {
                lemma_position_of_next(chars@, 'm', start as int);
                lemma_body_position(chars@, 'm', start as int, stop as int, start as int);
                assert(position_of_next(body, 'm', 0) == m - start);
                assert(body.take(m - start) =~= chars@.subrange(start as int, m as int));
            }
            let codes = collect_without_brackets(chars, start, m);
            let ctrl = split_pieces(&codes);
            let mut text = if m < stop { collect(chars, m + 1, stop) } else { String::new() };
            let end = find_end_of_whitespace(chars, stop + 4);
            let ws = collect(chars, stop + 4, end);
            let ghost before = text@;
            text.append(ws.as_str());
            proof {
                if m < stop {
                    assert(before =~= body.skip(m - start + 1));
                }
            }
            *pos = end;
            Self { ctrl, text }
        } else {
            *pos = stop;
            let chunk = Self { ctrl: Vec::new(), text: collect(chars, start, stop) };
            assert(chunk@.ctrl =~= Seq::empty());
            chunk
        }
    }

    /// The numbers of the code that colours the text.
    pub fn codes(&self) -> (codes: &Vec<String>)
        ensures
            codes@.map_values(|code: String| code@) == self@.ctrl,
    {
        &self.ctrl
    }

    /// The text.
    pub fn content(&self) -> (text: &String)
        ensures
            text@ == self@.text,
    {
        &self.text
    }

    /// The colour in which the text is shown, if the code asks for one.
    pub fn color(&self) -> (color: Option<Color>)
        ensures
            color == chunk_color(self@.ctrl),
    {
        if self.ctrl.len() > 2 {
            match read_number(self.ctrl[2].as_str()) {
                Some(number) => color_of(number),
                None => None,
            }
        } else {
            None
        }
    }
}

/// Searching the part of `s` from `from` up to `to` finds what searching `s`
/// finds, or nothing where that lies at or behind `to`.
proof fn lemma_body_position(s: Seq<char>, stop: char, from: int, to: int, pos: int)
    requires
        0 <= from <= pos <= to <= s.len(),
    ensures
        position_of_next(s.subrange(from, to), stop, pos - from) == (if position_of_next(
            s,
            stop,
            pos,
        ) < to {
            position_of_next(s, stop, pos) - from
        } else {
            to - from
        }),
    decreases to - pos,
{
    lemma_position_of_next(s, stop, pos);
    if pos < to {
        assert(s.subrange(from, to)[pos - from] == s[pos]);
        if s[pos] != stop {
            lemma_body_position(s, stop, from, to, pos + 1);
        }
    }
}

/// A text cut into its chunks.
#[derive(Debug, Clone)]
pub struct CtrlChars {
    parsed: Vec<CtrlChunk>,
}

impl View for CtrlChars {
    type V = Seq<ChunkView>;

    closed spec fn view(&self) -> Seq<ChunkView> {
        self.parsed@.map_values(|chunk: CtrlChunk| chunk@)
    }
}

impl CtrlChars {
    /// Cuts a text into its chunks.
    pub fn parse(input: &str) -> (parsed: Self)
        ensures
            parsed@ == chunks_of(input@),
    {
        let chars = to_chars(input);
        let mut parsed: Vec<CtrlChunk> = Vec::new();
        let first = find_next(&chars, ESC, 0);
        let head = CtrlChunk::text(collect(&chars, 0, first));
        parsed.push(head);
        assert(chars@.subrange(0, first as int) =~= chars@.take(first as int));
        assert(parsed@.map_values(|chunk: CtrlChunk| chunk@) =~= seq![head@]);
        let mut pos: usize = first;
        while pos < chars.len()
            invariant
                pos <= chars@.len(),
                chars@ == input@,
                parsed@.map_values(|chunk: CtrlChunk| chunk@) + chunks_from(chars@, pos as int)
                    == chunks_of(chars@),
            decreases chars@.len() - pos,
        {
            let ghost shown = parsed@.map_values(|chunk: CtrlChunk| chunk@);
            let ghost at = pos as int;
            let chunk = CtrlChunk::parse(&chars, &mut pos);
            parsed.push(chunk);
            proof {
                assert(parsed@.map_values(|chunk: CtrlChunk| chunk@) =~= shown.push(chunk@));
                assert(shown.push(chunk@) + chunks_from(chars@, pos as int) =~= shown + (seq![chunk@]
                    + chunks_from(chars@, pos as int)));
            }
        }
        assert(chunks_from(chars@, pos as int) =~= Seq::empty());
        assert(parsed@.map_values(|chunk: CtrlChunk| chunk@) + Seq::<ChunkView>::empty()
            =~= parsed@.map_values(|chunk: CtrlChunk| chunk@));
        Self { parsed }
    }

    /// Writes the text: its chunks, one behind the other.
    pub fn to_string(&self) -> (s: String)
        ensures
            s@ == written_chunks(self@),
    {
        let mut s = String::new();
        let mut k: usize = 0;
        let ghost chunks = self@;
        assert(chunks.take(0) =~= Seq::<ChunkView>::empty());
        while k < self.parsed.len()
            invariant
                k <= self.parsed@.len(),
                chunks == self.parsed@.map_values(|chunk: CtrlChunk| chunk@),
                s@ == written_chunks(chunks.take(k as int)),
            decreases self.parsed@.len() - k,
        {
            proof {
                assert(chunks.take(k + 1).drop_last() =~= chunks.take(k as int));
                assert(chunks.take(k + 1).last() == self.parsed@[k as int]@);
            }
            let piece = self.parsed[k].to_string();
            s.append(piece.as_str());
            k += 1;
        }
        assert(chunks.take(k as int) =~= chunks);
        s
    }

    /// The chunks.
    pub fn chunks(&self) -> (chunks: &Vec<CtrlChunk>)
        ensures
            chunks@.map_values(|chunk: CtrlChunk| chunk@) == self@,
    {
        &self.parsed
    }

    /// Hands the chunks out.
    pub fn into_chunks(self) -> (chunks: Vec<CtrlChunk>)
        ensures
            chunks@.map_values(|chunk: CtrlChunk| chunk@) == self@,
    {
        self.parsed
    }
}

} // verus!
