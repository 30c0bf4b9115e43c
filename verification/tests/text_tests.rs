use git_igitt::app::DiffType;
use git_igitt::diff::{diff_item, diff_line_text, hunk_header, line_color, missing_file_message, replace_tabs};
use git_igitt::graph::Oid;
use git_igitt::settings::{spaces, AppSettings};
use git_igitt::style::Color;
use git_igitt::text::{cut_entry, without_last};
use git_igitt::util::ctrl_chars::{CtrlChars, CtrlChunk};
use git_igitt::util::format::{blank, split_lines, CommitText};
use git_igitt::widgets::list::{widest_overflow, ListState};

#[test]
fn tab_width_sets_blanks() {
    assert_eq!(AppSettings::default().tab_spaces, "    ");
    assert_eq!(AppSettings::default().tab_width(2).tab_spaces, "  ");
    assert_eq!(AppSettings::default().tab_width(0).tab_spaces, "");
    assert_eq!(spaces(3), "   ");
}

#[test]
fn diff_type_letters_and_signs() {
    assert_eq!(DiffType::from_str("A"), Ok(DiffType::Added));
    assert_eq!(DiffType::from_str("D"), Ok(DiffType::Deleted));
    assert_eq!(DiffType::from_str("M"), Ok(DiffType::Modified));
    assert_eq!(DiffType::from_str("R"), Ok(DiffType::Renamed));
    assert_eq!(DiffType::from_str("X"), Err("Unknown diff type X".to_string()));
    assert_eq!(DiffType::from_str(""), Err("Unknown diff type ".to_string()));
    assert_eq!(DiffType::from_str("AM"), Err("Unknown diff type AM".to_string()));
    assert_eq!(DiffType::Added.to_string(), "+");
    assert_eq!(DiffType::Deleted.to_string(), "-");
    assert_eq!(DiffType::Modified.to_string(), "m");
    assert_eq!(DiffType::Renamed.to_string(), "r");
    assert_eq!(DiffType::Added.to_color(), Color::LightGreen);
    assert_eq!(DiffType::Deleted.to_color(), Color::LightRed);
    assert_eq!(DiffType::Modified.to_color(), Color::LightYellow);
    assert_eq!(DiffType::Renamed.to_color(), Color::LightBlue);
}

#[test]
fn diff_item_picks_the_path() {
    let item = diff_item("M\tsrc/a.rs\n", "old/a.rs", "new/a.rs").unwrap();
    assert_eq!(item.file, "old/a.rs");
    assert_eq!(item.diff_type, DiffType::Modified);
    let item = diff_item("D", "old", "new").unwrap();
    assert_eq!(item.file, "old");
    let item = diff_item("A", "old", "new").unwrap();
    assert_eq!(item.file, "new");
    let item = diff_item("R100", "old", "new").unwrap();
    assert_eq!(item.file, "new");
    assert_eq!(item.diff_type, DiffType::Renamed);
    assert_eq!(diff_item("?x", "old", "new").unwrap_err(), "Unknown diff type ?");
    assert_eq!(diff_item("", "old", "new").unwrap_err(), "Unknown diff type ");
}

#[test]
fn tabs_are_replaced() {
    assert_eq!(replace_tabs("a\tb\t", "  "), "a  b  ");
    assert_eq!(replace_tabs("\t", ""), "");
    assert_eq!(replace_tabs("no tabs", "    "), "no tabs");
    assert_eq!(replace_tabs("", "    "), "");
}

#[test]
fn diff_lines_carry_their_sign() {
    assert_eq!(diff_line_text('+', "\tadded\n", "  "), "+  added\n");
    assert_eq!(diff_line_text('-', "gone", "  "), "-gone");
    assert_eq!(diff_line_text(' ', "same", "  "), " same");
    assert_eq!(diff_line_text('H', "@@ -1 +1 @@", "  "), "@@ -1 +1 @@");
    assert_eq!(diff_line_text('F', "diff --git", "  "), "diff --git");
}

#[test]
fn diff_lines_are_coloured_by_their_sign() {
    assert_eq!(line_color("+x"), Some(Color::LightGreen));
    assert_eq!(line_color("-x"), Some(Color::LightRed));
    assert_eq!(line_color("@@ -1 +1 @@"), Some(Color::LightBlue));
    assert_eq!(line_color(" x"), None);
    assert_eq!(line_color(""), None);
}

#[test]
fn hunk_head_is_cut_behind_the_closing_mark() {
    assert_eq!(hunk_header("@@ -1,3 +1,4 @@ fn main() {"), "@@ -1,3 +1,4 @@");
    assert_eq!(hunk_header("@@ -1,3 +1,4 @@"), "@@ -1,3 +1,4 @@");
    assert_eq!(hunk_header("+ @@ x"), "+ @@ x");
    assert_eq!(hunk_header("@@"), "@@");
    assert_eq!(hunk_header(""), "");
}

#[test]
fn short_hex_has_seven_digits() {
    let id = Oid { hi: 0x0123_4567_89ab_cdef, mid: 1, lo: 2 };
    assert_eq!(id.short_hex(), "0123456");
    assert_eq!(Oid::zero().short_hex(), "0000000");
    assert_eq!(Oid { hi: u64::MAX, mid: 0, lo: 0 }.short_hex(), "fffffff");
    assert_eq!(missing_file_message(id), "File does not exist in 0123456");
}

#[test]
fn without_last_drops_one_character() {
    assert_eq!(without_last("abc"), "ab");
    assert_eq!(without_last("é"), "");
    assert_eq!(without_last("aé"), "a");
    assert_eq!(without_last(""), "");
}

#[test]
fn cut_entry_marks_the_cut() {
    assert_eq!(cut_entry("0123456789", None), "0123456789");
    assert_eq!(cut_entry("0123456789", Some(4)), "..456789");
    assert_eq!(cut_entry("0123456789", Some(10)), "..");
    assert_eq!(cut_entry("0123456789", Some(11)), "..");
    assert_eq!(cut_entry("äöü", Some(1)), "..öü");
}

#[test]
fn layout_cuts_wide_entries_when_scrolled() {
    let state = ListState { offset: 0, selected: None, scroll_x: 0 };
    assert_eq!(state.layout_entry("a/long/path/name.rs", 10), ("a/long/path/name.rs".to_string(), 9));
    let state = ListState { offset: 0, selected: None, scroll_x: 3 };
    // Width 19, 10 columns: cut at min(9 + 2, min(19, 3 + 2)) = 5.
    assert_eq!(state.layout_entry("a/long/path/name.rs", 10), ("..g/path/name.rs".to_string(), 9));
    assert_eq!(state.layout_entry("short", 10), ("short".to_string(), 0));
    // A wide character takes up two columns.
    assert_eq!(state.layout_entry("日本語", 4).1, 2);
    assert_eq!(widest_overflow(&vec![9, 0, 2]), 9);
    assert_eq!(widest_overflow(&vec![]), 0);
}

fn chunk_views(input: &str) -> Vec<(Vec<String>, String)> {
    CtrlChars::parse(input)
        .into_chunks()
        .into_iter()
        .map(|chunk| (chunk.codes().clone(), chunk.content().clone()))
        .collect()
}

fn codes(list: &[&str]) -> Vec<String> {
    list.iter().map(|s| s.to_string()).collect()
}

#[test]
fn plain_text_is_one_chunk() {
    assert_eq!(chunk_views("hello world"), vec![(vec![], "hello world".to_string())]);
    assert_eq!(chunk_views(""), vec![(vec![], String::new())]);
}

#[test]
fn coloured_text_is_split_into_codes_and_text() {
    let input = "ab \x1B[38;5;9mred\x1B[0m  tail";
    assert_eq!(
        chunk_views(input),
        vec![
            (vec![], "ab ".to_string()),
            (codes(&["38", "5", "9"]), "red  ".to_string()),
            (vec![], "tail".to_string()),
        ]
    );
    let chunks = CtrlChars::parse(input).into_chunks();
    assert_eq!(chunks[0].color(), None);
    assert_eq!(chunks[1].color(), Some(Color::LightRed));
    assert_eq!(chunks[2].color(), None);
}

#[test]
fn code_without_reset_is_plain_text() {
    assert_eq!(
        chunk_views("\x1B[1mbold"),
        vec![(vec![], String::new()), (vec![], "[1mbold".to_string())]
    );
}

#[test]
fn stray_escapes_give_empty_chunks() {
    assert_eq!(
        chunk_views("a\x1B\x1Bb"),
        vec![
            (vec![], "a".to_string()),
            (vec![], String::new()),
            (vec![], "b".to_string()),
        ]
    );
    assert_eq!(chunk_views("a\x1B"), vec![(vec![], "a".to_string()), (vec![], String::new())]);
}

#[test]
fn body_without_m_before_reset_does_not_panic() {
    assert_eq!(
        chunk_views("\x1Bxyz\x1B[0m"),
        vec![(vec![], String::new()), (codes(&["xyz"]), String::new())]
    );
}

#[test]
fn third_number_names_the_colour() {
    let colours = [
        ("0", Some(Color::Black)),
        ("1", Some(Color::Red)),
        ("2", Some(Color::Green)),
        ("3", Some(Color::Yellow)),
        ("4", Some(Color::Blue)),
        ("5", Some(Color::Magenta)),
        ("6", Some(Color::Cyan)),
        ("7", Some(Color::White)),
        ("8", Some(Color::DarkGray)),
        ("9", Some(Color::LightRed)),
        ("10", Some(Color::LightGreen)),
        ("11", Some(Color::LightYellow)),
        ("12", Some(Color::LightBlue)),
        ("13", Some(Color::LightMagenta)),
        ("14", Some(Color::LightCyan)),
        ("15", Some(Color::White)),
        ("16", None),
        ("01", None),
        ("x", None),
        ("", None),
    ];
    for (code, colour) in colours {
        let input = format!("\x1B[38;5;{}mtext\x1B[0m", code);
        let chunks = CtrlChars::parse(&input).into_chunks();
        assert_eq!(chunks[1].color(), colour, "code {:?}", code);
        assert_eq!(chunks[1].content(), "text");
    }
    // Fewer than three numbers: no colour.
    let chunks = CtrlChars::parse("\x1B[1;31mtext\x1B[0m").into_chunks();
    assert_eq!(chunks[1].color(), None);
    assert_eq!(CtrlChunk::text("plain".to_string()).color(), None);
    assert_eq!(CtrlChunk::text("plain".to_string()).content(), "plain");
}

#[test]
fn lines_are_split_like_std() {
    for text in ["", "a", "a\n", "a\nb", "a\r\nb\r\n", "\n", "\n\n", "a\r", "a\rb\n", "\r\n", "x\n\ny"] {
        let expected: Vec<String> = text.lines().map(|l| l.to_string()).collect();
        assert_eq!(split_lines(text), expected, "text {:?}", text);
    }
    assert!(blank(""));
    assert!(blank(" \t "));
    assert!(!blank(" x "));
}

fn commit(message: &str, merge: Option<(Oid, Oid)>) -> CommitText {
    CommitText {
        id: "0123456789".to_string(),
        branches: " (main)".to_string(),
        merge,
        author_name: "Ann".to_string(),
        author_email: "ann@example.org".to_string(),
        date: "Mon Jan 1 00:00:00 2024 +0000".to_string(),
        message: message.to_string(),
    }
}

#[test]
fn commit_text_is_laid_out() {
    let out = git_igitt::util::format::format(&commit("Subject\n\nBody line\n", None));
    assert_eq!(
        out,
        vec![
            "0123456789",
            " (main)",
            "",
            "Author: Ann <ann@example.org>",
            "Date:   Mon Jan 1 00:00:00 2024 +0000",
            "",
            "    Subject",
            "",
            "    Body line",
            "",
        ]
    );
    let a = Oid { hi: 0xaaaa_aaa0_0000_0000, mid: 0, lo: 0 };
    let b = Oid { hi: 0xbbbb_bbb0_0000_0000, mid: 0, lo: 0 };
    let out = git_igitt::util::format::format(&commit("Merge\n   ", Some((a, b))));
    assert_eq!(out[2], "  Merge: aaaaaaa bbbbbbb");
    // The message ends with a blank line: none is added.
    assert_eq!(&out[6..], &["    Merge", "       "]);
    // An empty message still gets the closing line.
    let out = git_igitt::util::format::format(&commit("", None));
    assert_eq!(out.len(), 7);
    assert_eq!(out[6], "");
}

#[test]
fn chunk_is_read_from_a_position() {
    let chars: Vec<char> = "ab\x1B[38;5;2mgo\x1B[0m \tend".chars().collect();
    let mut pos = 0;
    let chunk = CtrlChunk::parse(&chars, &mut pos);
    assert_eq!(chunk.content(), "ab");
    assert_eq!(pos, 2);
    let chunk = CtrlChunk::parse(&chars, &mut pos);
    assert_eq!(chunk.codes(), &codes(&["38", "5", "2"]));
    assert_eq!(chunk.content(), "go \t");
    assert_eq!(chunk.color(), Some(Color::Green));
    assert_eq!(pos, chars.len() - 3);
    let chunk = CtrlChunk::parse(&chars, &mut pos);
    assert_eq!(chunk.content(), "end");
    assert_eq!(pos, chars.len());
    // At and behind the end: an empty chunk, and the position stays.
    let chunk = CtrlChunk::parse(&chars, &mut pos);
    assert_eq!(chunk.content(), "");
    assert_eq!(pos, chars.len());
    let mut far = chars.len() + 5;
    let chunk = CtrlChunk::parse(&chars, &mut far);
    assert_eq!(chunk.content(), "");
    assert!(chunk.codes().is_empty());
    assert_eq!(far, chars.len() + 5);
}

#[test]
fn empty_pieces_between_semicolons_are_kept() {
    let chunks = CtrlChars::parse("\x1B[1;;[3;mx\x1B[0m").into_chunks();
    assert_eq!(chunks[1].codes(), &codes(&["1", "", "3", ""]));
    assert_eq!(chunks[1].content(), "x");
}

#[test]
fn chunks_are_written_with_their_codes() {
    assert_eq!(CtrlChunk::text("plain".to_string()).to_string(), "plain");
    assert_eq!(CtrlChunk::text(String::new()).to_string(), "");
    let chunks = CtrlChars::parse("ab \x1B[38;5;9mred\x1B[0m  tail").into_chunks();
    assert_eq!(chunks[1].to_string(), "\x1B[38\x1B[5\x1B[9red  ");
    let chunks = CtrlChars::parse("\x1B[1mbold\x1B[0m").into_chunks();
    assert_eq!(chunks[1].to_string(), "\x1B[1bold");
    // No code at all: the text alone.
    let chunks = CtrlChars::parse("\x1B[1mbold").into_chunks();
    assert_eq!(chunks[1].to_string(), "[1mbold");
}

#[test]
fn text_is_written_chunk_by_chunk() {
    assert_eq!(CtrlChars::parse("").to_string(), "");
    assert_eq!(CtrlChars::parse("no codes").to_string(), "no codes");
    assert_eq!(
        CtrlChars::parse("ab \x1B[38;5;9mred\x1B[0m  tail").to_string(),
        "ab \x1B[38\x1B[5\x1B[9red  tail"
    );
    assert_eq!(CtrlChars::parse("a\x1B\x1Bb").to_string(), "ab");
}
