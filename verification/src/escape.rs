//! Translation of draw instructions into the ANSI escape string that paints
//! them, through termion. The two escape sequences the simulation needs —
//! cursor positioning and a truecolor foreground — come from termion behind
//! trusted wrappers with exact contracts, and the assembly of the full frame
//! string is verified.

use vstd::prelude::*;
use crate::instr::{Color, DrawInstruction};

verus! {

/// The decimal digit character for `d` in `0..=9`.
pub open spec fn spec_digit(d: int) -> char {
    if d == 0 {
        '0'
    } else if d == 1 {
        '1'
    } else if d == 2 {
        '2'
    } else if d == 3 {
        '3'
    } else if d == 4 {
        '4'
    } else if d == 5 {
        '5'
    } else if d == 6 {
        '6'
    } else if d == 7 {
        '7'
    } else if d == 8 {
        '8'
    } else {
        '9'
    }
}

/// The decimal rendering of a non-negative integer, most significant digit
/// first, without leading zeroes (and `0` as "0").
pub open spec fn spec_decimal(n: int) -> Seq<char>
    decreases n,
{
    if n < 0 {
        Seq::empty()
    } else if n < 10 {
        seq![spec_digit(n)]
    } else {
        spec_decimal(n / 10) + seq![spec_digit(n % 10)]
    }
}

/// The ANSI cursor-position sequence `ESC [ <row> ; <column> H`, with the
/// (one-based) coordinates in decimal.
pub open spec fn spec_goto_escape(column: u16, row: u16) -> Seq<char> {
    seq!['\u{1b}', '['] + spec_decimal(row as int) + seq![';'] + spec_decimal(column as int)
        + seq!['H']
}

/// The ANSI truecolor foreground sequence `ESC [ 38 ; 2 ; <r> ; <g> ; <b> m`,
/// with the channels in decimal.
pub open spec fn spec_fg_escape(color: Color) -> Seq<char> {
    seq!['\u{1b}', '[', '3', '8', ';', '2', ';'] + spec_decimal(color.red as int) + seq![';']
        + spec_decimal(color.green as int) + seq![';'] + spec_decimal(color.blue as int)
        + seq!['m']
}

/// Relies on the `Display` impl of `termion::cursor::Goto`, which writes
/// `"\x1B[{};{}H"` with the row first and the column second, both in decimal
/// (and asserts, in debug builds, that the coordinates are not both zero —
/// the precondition keeps clear of that).
#[verifier::external_body]
fn goto_escape(column: u16, row: u16) -> (s: String)
    requires
        column >= 1,
    ensures
        s@ == spec_goto_escape(column, row),
{
    format!("{}", termion::cursor::Goto(column, row))
}

/// Relies on `termion::color::Rgb::fg_string`, which returns
/// `"\x1B[38;2;{};{};{}m"` with the three channels in decimal.
#[verifier::external_body]
fn fg_escape(color: Color) -> (s: String)
    ensures
        s@ == spec_fg_escape(color),
{
    termion::color::Rgb(color.red, color.green, color.blue).fg_string()
}

/// Relies on `String::push`: appends the one character at the end.
#[verifier::external_body]
fn push_char(s: &mut String, c: char)
    ensures
        final(s)@ == old(s)@.push(c),
{
    s.push(c);
}

/// The escape text that paints one instruction: position the cursor, then
/// either set the colour and write the glyph, or write a plain space to
/// erase the cell.
pub open spec fn spec_instr_text(d: DrawInstruction) -> Seq<char> {
    match d {
        DrawInstruction::Glyph { column, row, color, glyph } => spec_goto_escape(column, row)
            + spec_fg_escape(color) + seq![glyph],
        DrawInstruction::Blank { column, row } => spec_goto_escape(column, row) + seq![' '],
    }
}

/// The escape text that paints a whole instruction sequence, in order.
pub open spec fn spec_frame_text(instrs: Seq<DrawInstruction>) -> Seq<char>
    decreases instrs.len(),
{
    if instrs.len() == 0 {
        Seq::empty()
    } else {
        spec_instr_text(instrs[0]) + spec_frame_text(instrs.drop_first())
    }
}

/// Assemble the escape string that paints `instrs`, instruction by
/// instruction in order. Columns must be one-based, as every instruction a
/// tick emits is.
pub fn frame_text(instrs: &Vec<DrawInstruction>) -> (s: String)
    requires
        forall|k: int| 0 <= k < instrs@.len() ==> (#[trigger] instrs@[k]).spec_column() >= 1,
    ensures
        s@ == spec_frame_text(instrs@),
{
    let mut s = String::new();
    let n = instrs.len();
    let mut i: usize = 0;
    proof {
        assert(instrs@.subrange(0, n as int) =~= instrs@);
        assert(s@ + spec_frame_text(instrs@) =~= spec_frame_text(instrs@));
    }
    while i < n
        invariant
            n == instrs@.len(),
            i <= n,
            forall|k: int| 0 <= k < instrs@.len() ==> (#[trigger] instrs@[k]).spec_column() >= 1,
            s@ + spec_frame_text(instrs@.subrange(i as int, n as int)) == spec_frame_text(
                instrs@,
            ),
        decreases n - i,
    {
        let ghost before = s@;
        let ghost rest_here = instrs@.subrange(i as int, n as int);
        match instrs[i] {
            DrawInstruction::Glyph { column, row, color, glyph } => {
                let goto = goto_escape(column, row);
                s.append(goto.as_str());
                let fg = fg_escape(color);
                s.append(fg.as_str());
                push_char(&mut s, glyph);
            },
            DrawInstruction::Blank { column, row } => {
                let goto = goto_escape(column, row);
                s.append(goto.as_str());
                push_char(&mut s, ' ');
            },
        }
        proof {
            assert(rest_here[0] == instrs@[i as int]);
            assert(rest_here.drop_first() =~= instrs@.subrange(i as int + 1, n as int));
            assert(s@ =~= before + spec_instr_text(instrs@[i as int]));
            assert(before + spec_frame_text(rest_here) =~= s@ + spec_frame_text(
                instrs@.subrange(i as int + 1, n as int),
            ));
        }
        i = i + 1;
    }
    proof {
        assert(instrs@.subrange(0, n as int) =~= instrs@);
        assert(s@ =~= spec_frame_text(instrs@));
    }
    s
}

} // verus!
