//! The rows that the big digits are made of.
//!
//! A row is a run of columns, some lit and some dark, followed by one dark
//! column that parts it from the next glyph. A lit column is a blank on
//! the colour of the clock, a dark column a blank on the colour of the
//! terminal.

use vstd::prelude::*;
use vstd::string::*;

use crate::color::Color;
use crate::screen::{
    closed, columns, lemma_columns_add, lemma_columns_of_color, lemma_columns_of_spaces,
    lemma_line_ends_add, line_ends,
};
use crate::text::spaces;

verus! {

/// One row of a glyph.
#[derive(Clone, Copy, Debug, PartialEq, Eq, Structural)]
pub enum Segment {
    /// Six lit columns.
    Full,
    /// Two lit columns, then four dark ones.
    Left,
    /// Four dark columns, then two lit ones.
    Right,
    /// Two lit columns, two dark ones, two lit ones.
    Sides,
    /// A dark column, two lit ones, a dark one: the dot of a separator.
    Dot,
    /// Four dark columns: a separator where it has no dot.
    Gap,
}

/// `n` lit columns: the colour behind the text is set by `background`, and
/// reset after the blanks.
pub open spec fn lit(background: Seq<char>, n: nat) -> Seq<char> {
    background + spaces(n) + Color::RESET@
}

impl Segment {
    /// The columns that the row takes on the screen, the parting one
    /// included.
    pub open spec fn columns(self) -> nat {
        match self {
            Segment::Dot | Segment::Gap => 5,
            _ => 7,
        }
    }

    /// The row as it is written to the terminal, where `background` sets
    /// the colour of the lit columns.
    pub open spec fn drawn(self, background: Seq<char>) -> Seq<char> {
        match self {
            Segment::Full => lit(background, 6) + spaces(1),
            Segment::Left => lit(background, 2) + spaces(5),
            Segment::Right => spaces(4) + lit(background, 2) + spaces(1),
            Segment::Sides => lit(background, 2) + spaces(2) + lit(background, 2) + spaces(1),
            Segment::Dot => spaces(1) + lit(background, 2) + spaces(2),
            Segment::Gap => spaces(5),
        }
    }

    /// Writes the row in `color`.
    pub fn fmt(&self, color: &Color) -> (s: String)
        ensures
            s@ == self.drawn(color.background_view()),
    {
        proof {
            reveal_strlit(" ");
            reveal_strlit("  ");
            reveal_strlit("    ");
            reveal_strlit("     ");
            reveal_strlit("      ");
        }
        let background = color.background();
        let mut s = String::new();
        match self {
            Segment::Full => {
                s.append(background.as_str());
                s.append("      ");
                s.append(Color::RESET);
                s.append(" ");
            },
            Segment::Left => {
                s.append(background.as_str());
                s.append("  ");
                s.append(Color::RESET);
                s.append("     ");
            },
            Segment::Right => {
                s.append("    ");
                s.append(background.as_str());
                s.append("  ");
                s.append(Color::RESET);
                s.append(" ");
            },
            Segment::Sides => {
                s.append(background.as_str());
                s.append("  ");
                s.append(Color::RESET);
                s.append("  ");
                s.append(background.as_str());
                s.append("  ");
                s.append(Color::RESET);
                s.append(" ");
            },
            Segment::Dot => {
                s.append(" ");
                s.append(background.as_str());
                s.append("  ");
                s.append(Color::RESET);
                s.append("  ");
            },
            Segment::Gap => {
                s.append("     ");
            },
        }
        s
    }
}

/// Lit columns take as many columns on the screen as they are, in any
/// colour, and end no line.
pub proof fn lemma_columns_of_lit(color: Color, n: nat)
    ensures
        columns(lit(color.background_view(), n)) == n,
        closed(lit(color.background_view(), n)),
        line_ends(lit(color.background_view(), n)) == 0,
{
    let background = color.background_view();
    lemma_columns_of_color(color);
    lemma_columns_of_spaces(n);
    lemma_columns_add(background, spaces(n));
    lemma_columns_add(background + spaces(n), Color::RESET@);
    lemma_line_ends_add(background, spaces(n));
    lemma_line_ends_add(background + spaces(n), Color::RESET@);
}

/// What a closed text and a text after it take and end together.
proof fn lemma_joined(a: Seq<char>, b: Seq<char>)
    requires
        closed(a),
    ensures
        columns(a + b) == columns(a) + columns(b),
        closed(a + b) == closed(b),
        line_ends(a + b) == line_ends(a) + line_ends(b),
{
    lemma_columns_add(a, b);
    lemma_line_ends_add(a, b);
}

/// A row that is written in any colour takes on the screen the columns
/// that it is said to take. It leaves no escape sequence open and ends no
/// line.
pub proof fn law_segment_columns(segment: Segment, color: Color)
    ensures
        columns(segment.drawn(color.background_view())) == segment.columns(),
        closed(segment.drawn(color.background_view())),
        line_ends(segment.drawn(color.background_view())) == 0,
{
    let background = color.background_view();
    lemma_columns_of_lit(color, 2);
    lemma_columns_of_lit(color, 6);
    lemma_columns_of_spaces(1);
    lemma_columns_of_spaces(2);
    lemma_columns_of_spaces(4);
    lemma_columns_of_spaces(5);
    match segment {
        Segment::Full => {
            lemma_joined(lit(background, 6), spaces(1));
        },
        Segment::Left => {
            lemma_joined(lit(background, 2), spaces(5));
        },
        Segment::Right => {
            lemma_joined(spaces(4), lit(background, 2));
            lemma_joined(spaces(4) + lit(background, 2), spaces(1));
        },
        Segment::Sides => {
            lemma_joined(lit(background, 2), spaces(2));
            lemma_joined(lit(background, 2) + spaces(2), lit(background, 2));
            lemma_joined(lit(background, 2) + spaces(2) + lit(background, 2), spaces(1));
        },
        Segment::Dot => {
            lemma_joined(spaces(1), lit(background, 2));
            lemma_joined(spaces(1) + lit(background, 2), spaces(2));
        },
        Segment::Gap => {},
    }
}

} // verus!
