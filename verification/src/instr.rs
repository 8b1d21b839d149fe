//! Draw instructions: the unit of output one tick hands to the terminal writer.

use vstd::prelude::*;

verus! {

/// A 24-bit colour, one channel per byte.
#[derive(Clone, Copy, PartialEq, Eq, Debug)]
pub struct Color {
    pub red: u8,
    pub green: u8,
    pub blue: u8,
}

/// One unit of terminal output: either a coloured glyph at a cell, or the
/// erasure of a cell (a blank) left behind by a moving trail.
#[derive(Clone, Copy, PartialEq, Eq, Debug)]
pub enum DrawInstruction {
    /// Paint `glyph` at (`column`, `row`) in colour `color`.
    Glyph { column: u16, row: u16, color: Color, glyph: char },
    /// Erase the cell at (`column`, `row`).
    Blank { column: u16, row: u16 },
}

impl DrawInstruction {
    /// The row the instruction touches.
    pub open spec fn spec_row(self) -> u16 {
        match self {
            DrawInstruction::Glyph { row, .. } => row,
            DrawInstruction::Blank { row, .. } => row,
        }
    }

    /// The column the instruction touches.
    pub open spec fn spec_column(self) -> u16 {
        match self {
            DrawInstruction::Glyph { column, .. } => column,
            DrawInstruction::Blank { column, .. } => column,
        }
    }
}

/// The fixed three-tier fade: index 0 is the full-bright head; indices 1
/// through 5 dim as `255 / (index + 1)` on the red and blue channels over a
/// constant green channel; every older glyph is a dim fixed green.
pub open spec fn spec_color_at(index: int) -> Color {
    if index == 0 {
        Color { red: 255, green: 255, blue: 255 }
    } else if 1 <= index <= 5 {
        Color { red: (255int / (index + 1)) as u8, green: 150, blue: (255int / (index + 1)) as u8 }
    } else {
        Color { red: 0, green: 150, blue: 0 }
    }
}

/// The colour a glyph at the given trail index is painted with.
pub fn color_at(index: usize) -> (c: Color)
    ensures
        c == spec_color_at(index as int),
{
    if index == 0 {
        Color { red: 255, green: 255, blue: 255 }
    } else if index <= 5 {
        let channel = 255 / (index as u8 + 1);
        Color { red: channel, green: 150, blue: channel }
    } else {
        Color { red: 0, green: 150, blue: 0 }
    }
}

} // verus!
