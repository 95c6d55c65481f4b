//! The console board: a position drawn as lines of text.
use vstd::prelude::*;
use chess::Board;
use crate::rules::{board_fen, fen_of};
use crate::text::{digit_of, digit_value, to_chars};

verus! {

/// The console surface.
pub struct ConsoleUI {}

/// Where the drawing stands after some characters of the notation: the
/// lines that are done, the line in hand, and the squares drawn so far.
pub struct Drawing {
    pub lines: Seq<Seq<char>>,
    pub line: Seq<char>,
    pub printed: int,
}

/// `count` empty squares, each a dot and a space.
pub open spec fn empty_squares(count: nat) -> Seq<char>
    decreases count,
{
    if count == 0 {
        Seq::empty()
    } else {
        empty_squares((count - 1) as nat).push('.').push(' ')
    }
}

/// The drawing after one more character: `/` ends the line in hand; once 64
/// squares are drawn nothing more is; a digit draws that many empty squares;
/// any other character is a piece, drawn with a space behind it.
pub open spec fn draw_char(d: Drawing, c: char) -> Drawing {
    if c == '/' {
        Drawing { lines: d.lines.push(d.line), line: Seq::empty(), printed: d.printed }
    } else if d.printed == 64 {
        d
    } else {
        match digit_value(c) {
            Some(count) => Drawing {
                lines: d.lines,
                line: d.line + empty_squares(count as nat),
                printed: d.printed + count,
            },
            None => Drawing { lines: d.lines, line: d.line.push(c).push(' '), printed: d.printed + 1 },
        }
    }
}

/// The drawing after all of `fen`.
pub open spec fn drawing_of(fen: Seq<char>) -> Drawing
    decreases fen.len(),
{
    if fen.len() == 0 {
        Drawing { lines: Seq::empty(), line: Seq::empty(), printed: 0 }
    } else {
        draw_char(drawing_of(fen.drop_last()), fen.last())
    }
}

/// The lines that show `fen`: one for each part between slashes, then two
/// empty lines.
pub open spec fn rendering(fen: Seq<char>) -> Seq<Seq<char>> {
    let d = drawing_of(fen);
    d.lines.push(d.line).push(Seq::empty()).push(Seq::empty())
}

/// The views of some lines.
pub open spec fn line_views(lines: Seq<String>) -> Seq<Seq<char>> {
    Seq::new(lines.len(), |i: int| lines[i]@)
}

fn push_empty_squares(line: &mut String, count: u8)
    ensures
        final(line)@ == old(line)@ + empty_squares(count as nat),
{
    let mut k: u8 = 0;
    while k < count
        invariant
            k <= count,
            line@ == old(line)@ + empty_squares(k as nat),
        decreases count - k,
    {
        line.push('.');
        line.push(' ');
        k += 1;
        assert(line@ =~= old(line)@ + empty_squares(k as nat));
    }
}

impl ConsoleUI {
    /// Draws a position given in Forsyth-Edwards notation.
    pub fn render(fen: &str) -> (lines: Vec<String>)
        ensures
            line_views(lines@) == rendering(fen@),
    {
        let chars = to_chars(fen);
        let mut lines: Vec<String> = Vec::new();
        let mut line = String::new();
        // Squares drawn so far; past 64 only "more than 64" is kept.
        let mut printed: u8 = 0;
        let mut i: usize = 0;
        while i < chars.len()
            invariant
                i <= chars@.len(),
                chars@ == fen@,
                line_views(lines@) == drawing_of(fen@.take(i as int)).lines,
                line@ == drawing_of(fen@.take(i as int)).line,
                0 <= drawing_of(fen@.take(i as int)).printed,
                printed <= 73,
                printed <= 64 ==> printed == drawing_of(fen@.take(i as int)).printed,
                printed > 64 ==> drawing_of(fen@.take(i as int)).printed > 64,
            decreases chars.len() - i,
        {
            let c = chars[i];
            proof {
                assert(fen@.take(i + 1).drop_last() =~= fen@.take(i as int));
                assert(fen@.take(i + 1).last() == c);
            }
            if c == '/' {
                lines.push(line);
                line = String::new();
                assert(line_views(lines@) =~= drawing_of(fen@.take(i as int)).lines.push(
                    drawing_of(fen@.take(i as int)).line,
                ));
            } else if printed != 64 {
                match digit_of(c) {
                    Some(count) => {
                        push_empty_squares(&mut line, count);
                        if printed < 64 {
                            printed += count;
                        }
                    },
                    None => {
                        line.push(c);
                        line.push(' ');
                        if printed < 64 {
                            printed += 1;
                        }
                    },
                }
            }
            i += 1;
        }
        assert(fen@.take(i as int) =~= fen@);
        lines.push(line);
        lines.push(String::new());
        lines.push(String::new());
        assert(line_views(lines@) =~= rendering(fen@));
        lines
    }

    /// Draws the position of `board`.
    pub fn update(&self, board: &Board) -> (lines: Vec<String>)
        ensures
            line_views(lines@) == rendering(fen_of(*board)),
    {
        let fen = board_fen(board);
        ConsoleUI::render(fen.as_str())
    }
}

} // verus!
