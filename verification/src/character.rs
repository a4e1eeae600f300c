//! The glyphs of the clock: the ten digits, the separator and the blank
//! that takes the place of the separator while it blinks.
//!
//! Every glyph is five rows high. Every digit is as wide as any other, and
//! the blank is as wide as the separator.

use vstd::prelude::*;

use crate::color::Color;
use crate::screen::{closed, columns, line_ends};
use crate::segment::{law_segment_columns, Segment};

verus! {

/// What one place of the clock shows.
#[derive(Clone, Copy, Debug, PartialEq, Eq, Structural)]
pub enum Character {
    /// A digit, from 0 to 9.
    Num(u32),
    /// The separator between hours, minutes and seconds.
    Colon,
    /// Nothing, as wide as the separator.
    Empty,
}

impl Character {
    /// The rows of every glyph.
    pub const ROWS: usize = 5;

    /// Whether the glyph is one of those that the clock can show.
    pub open spec fn valid(self) -> bool {
        self matches Character::Num(n) ==> n <= 9
    }

    /// The columns that the glyph takes on the screen, with the column
    /// that parts it from the next glyph.
    pub open spec fn columns(self) -> nat {
        match self {
            Character::Num(_) => 7,
            _ => 5,
        }
    }

    /// Row `row` of the glyph, counted from the top.
    pub open spec fn segment(self, row: int) -> Segment {
        match self {
            Character::Num(n) => if n == 0 {
                if row == 0 || row == 4 {
                    Segment::Full
                } else {
                    Segment::Sides
                }
            } else if n == 1 {
                Segment::Right
            } else if n == 2 {
                if row == 1 {
                    Segment::Right
                } else if row == 3 {
                    Segment::Left
                } else {
                    Segment::Full
                }
            } else if n == 3 {
                if row == 1 || row == 3 {
                    Segment::Right
                } else {
                    Segment::Full
                }
            } else if n == 4 {
                if row == 0 || row == 1 {
                    Segment::Sides
                } else if row == 2 {
                    Segment::Full
                } else {
                    Segment::Right
                }
            } else if n == 5 {
                if row == 1 {
                    Segment::Left
                } else if row == 3 {
                    Segment::Right
                } else {
                    Segment::Full
                }
            } else if n == 6 {
                if row == 1 {
                    Segment::Left
                } else if row == 3 {
                    Segment::Sides
                } else {
                    Segment::Full
                }
            } else if n == 7 {
                if row == 0 {
                    Segment::Full
                } else {
                    Segment::Right
                }
            } else if n == 8 {
                if row == 1 || row == 3 {
                    Segment::Sides
                } else {
                    Segment::Full
                }
            } else {
                if row == 1 {
                    Segment::Sides
                } else if row == 3 {
                    Segment::Right
                } else {
                    Segment::Full
                }
            },
            Character::Colon => if row == 1 || row == 3 {
                Segment::Dot
            } else {
                Segment::Gap
            },
            Character::Empty => Segment::Gap,
        }
    }

    /// Row `row` of the glyph as it is written to the terminal in `color`.
    pub open spec fn drawn(self, color: Color, row: int) -> Seq<char> {
        self.segment(row).drawn(color.background_view())
    }

    /// The row of the glyph that `row` counts from the top.
    pub fn row(&self, row: usize) -> (segment: Segment)
        requires
            self.valid(),
            row < Character::ROWS,
        ensures
            segment == self.segment(row as int),
            segment.columns() == self.columns(),
    {
        match self {
            Character::Num(0) => match row {
                0 | 4 => Segment::Full,
                _ => Segment::Sides,
            },
            Character::Num(1) => Segment::Right,
            Character::Num(2) => match row {
                1 => Segment::Right,
                3 => Segment::Left,
                _ => Segment::Full,
            },
            Character::Num(3) => match row {
                1 | 3 => Segment::Right,
                _ => Segment::Full,
            },
            Character::Num(4) => match row {
                0 | 1 => Segment::Sides,
                2 => Segment::Full,
                _ => Segment::Right,
            },
            Character::Num(5) => match row {
                1 => Segment::Left,
                3 => Segment::Right,
                _ => Segment::Full,
            },
            Character::Num(6) => match row {
                1 => Segment::Left,
                3 => Segment::Sides,
                _ => Segment::Full,
            },
            Character::Num(7) => match row {
                0 => Segment::Full,
                _ => Segment::Right,
            },
            Character::Num(8) => match row {
                1 | 3 => Segment::Sides,
                _ => Segment::Full,
            },
            Character::Num(_) => match row {
                1 => Segment::Sides,
                3 => Segment::Right,
                _ => Segment::Full,
            },
            Character::Colon => match row {
                1 | 3 => Segment::Dot,
                _ => Segment::Gap,
            },
            Character::Empty => Segment::Gap,
        }
    }

    /// Writes row `row` of the glyph in `color`.
    pub fn fmt(&self, color: &Color, row: usize) -> (s: String)
        requires
            self.valid(),
            row < Character::ROWS,
        ensures
            s@ == self.drawn(*color, row as int),
    {
        self.row(row).fmt(color)
    }
}

/// Every row of a glyph takes the same number of columns on the screen, in
/// any colour: seven for every digit, five for the separator and for the
/// blank. No row leaves an escape sequence open, and none ends a line.
pub proof fn law_uniform_width(glyph: Character, color: Color, row: int)
    ensures
        columns(glyph.drawn(color, row)) == glyph.columns(),
        closed(glyph.drawn(color, row)),
        line_ends(glyph.drawn(color, row)) == 0,
        glyph is Num ==> columns(glyph.drawn(color, row)) == 7,
        !(glyph is Num) ==> columns(glyph.drawn(color, row)) == 5,
{
    law_segment_columns(glyph.segment(row), color);
}

} // verus!
