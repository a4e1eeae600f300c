//! How many columns and lines a text takes on the screen.
//!
//! An escape sequence runs from the escape character to the next `m` and
//! takes no column, and neither does the end of a line. Every other
//! character takes one. A text takes a line for every line feed in it.

use vstd::prelude::*;

use crate::color::{escape, Color};
use crate::text::{decimal, lemma_decimal_digits, spaces};

verus! {

/// Whether an escape sequence is open after `s`, where `escaped` says
/// whether one was open before.
pub open spec fn escaped_after(s: Seq<char>, escaped: bool) -> bool
    decreases s.len(),
{
    if s.len() == 0 {
        escaped
    } else if escaped_after(s.drop_last(), escaped) {
        s.last() != 'm'
    } else {
        s.last() == '\x1B'
    }
}

/// Whether `c` takes a column where no escape sequence is open.
pub open spec fn takes_column(c: char) -> bool {
    c != '\x1B' && c != '\r' && c != '\n'
}

/// The columns that `s` takes, where `escaped` says whether an escape
/// sequence was open before.
pub open spec fn columns_from(s: Seq<char>, escaped: bool) -> nat
    decreases s.len(),
{
    if s.len() == 0 {
        0
    } else if !escaped_after(s.drop_last(), escaped) && takes_column(s.last()) {
        columns_from(s.drop_last(), escaped) + 1
    } else {
        columns_from(s.drop_last(), escaped)
    }
}

/// The columns that `s` takes on the screen.
pub open spec fn columns(s: Seq<char>) -> nat {
    columns_from(s, false)
}

/// Whether `s` can stand among other texts without a change to what they
/// take: it leaves no escape sequence open.
pub open spec fn closed(s: Seq<char>) -> bool {
    !escaped_after(s, false)
}

/// The lines that `s` ends: the line feeds in it.
pub open spec fn line_ends(s: Seq<char>) -> nat
    decreases s.len(),
{
    if s.len() == 0 {
        0
    } else if s.last() == '\n' {
        line_ends(s.drop_last()) + 1
    } else {
        line_ends(s.drop_last())
    }
}

/// Two texts one after the other end the lines that each of them ends.
pub proof fn lemma_line_ends_add(a: Seq<char>, b: Seq<char>)
    ensures
        line_ends(a + b) == line_ends(a) + line_ends(b),
    decreases b.len(),
{
    if b.len() == 0 {
        assert(a + b =~= a);
    } else {
        assert((a + b).drop_last() =~= a + b.drop_last());
        lemma_line_ends_add(a, b.drop_last());
    }
}

/// A text without a line feed ends no line.
pub proof fn lemma_line_ends_none(s: Seq<char>)
    requires
        forall|i: int| 0 <= i < s.len() ==> s[i] != '\n',
    ensures
        line_ends(s) == 0,
    decreases s.len(),
{
    if s.len() > 0 {
        lemma_line_ends_none(s.drop_last());
    }
}

/// What two texts take one after the other is what the first takes and
/// what the second takes after it.
pub proof fn lemma_columns_concat(a: Seq<char>, b: Seq<char>, escaped: bool)
    ensures
        escaped_after(a + b, escaped) == escaped_after(b, escaped_after(a, escaped)),
        columns_from(a + b, escaped) == columns_from(a, escaped) + columns_from(
            b,
            escaped_after(a, escaped),
        ),
    decreases b.len(),
{
    if b.len() == 0 {
        assert(a + b =~= a);
    } else {
        assert((a + b).drop_last() =~= a + b.drop_last());
        assert((a + b).last() == b.last());
        lemma_columns_concat(a, b.drop_last(), escaped);
    }
}

/// A closed text followed by another takes what the two take, and the two
/// are closed if the second is.
pub proof fn lemma_columns_add(a: Seq<char>, b: Seq<char>)
    requires
        closed(a),
    ensures
        columns(a + b) == columns(a) + columns(b),
        closed(a + b) == closed(b),
{
    lemma_columns_concat(a, b, false);
}

/// A run of blanks takes as many columns as it has blanks, is closed, and
/// ends no line.
pub proof fn lemma_columns_of_spaces(n: nat)
    ensures
        columns(spaces(n)) == n,
        closed(spaces(n)),
        line_ends(spaces(n)) == 0,
    decreases n,
{
    lemma_line_ends_none(spaces(n));
    if n > 0 {
        assert(spaces(n).drop_last() =~= spaces((n - 1) as nat));
        lemma_columns_of_spaces((n - 1) as nat);
    }
}

/// Inside an escape sequence a text without `m` takes nothing and leaves
/// the sequence open.
pub proof fn lemma_columns_inside_escape(s: Seq<char>)
    requires
        forall|i: int| 0 <= i < s.len() ==> s[i] != 'm',
    ensures
        escaped_after(s, true),
        columns_from(s, true) == 0,
    decreases s.len(),
{
    if s.len() > 0 {
        lemma_columns_inside_escape(s.drop_last());
    }
}

/// An escape sequence whose parameters are digits and `;` takes no column,
/// is closed, and ends no line.
pub proof fn lemma_columns_of_escape(params: Seq<char>)
    requires
        forall|i: int| 0 <= i < params.len() ==> is_parameter(#[trigger] params[i]),
    ensures
        columns(escape(params)) == 0,
        closed(escape(params)),
        line_ends(escape(params)) == 0,
{
    lemma_line_ends_none(escape(params));
    let open = seq!['\x1B', '['];
    let end = seq!['m'];
    assert(escaped_after(open, false) && columns_from(open, false) == 0) by {
        reveal_with_fuel(escaped_after, 3);
        reveal_with_fuel(columns_from, 3);
        assert(open.drop_last() =~= seq!['\x1B']);
        assert(open.drop_last().drop_last() =~= Seq::<char>::empty());
    }
    lemma_columns_inside_escape(params);
    lemma_columns_concat(open, params, false);
    assert(!escaped_after(end, true) && columns_from(end, true) == 0) by {
        reveal_with_fuel(escaped_after, 2);
        reveal_with_fuel(columns_from, 2);
        assert(end.drop_last() =~= Seq::<char>::empty());
    }
    lemma_columns_concat(open + params, end, false);
}

/// Whether `c` can stand among the parameters of an escape sequence: a
/// digit or `;`.
pub open spec fn is_parameter(c: char) -> bool {
    '0' <= c <= '9' || c == ';'
}

/// The parameters that select a colour hold digits and `;` only.
pub proof fn lemma_parameters_of_color(color: Color, normal: nat, bright: nat, extended: nat)
    ensures
        forall|i: int|
            0 <= i < color.parameters(normal, bright, extended).len() ==> is_parameter(
                #[trigger] color.parameters(normal, bright, extended)[i],
            ),
{
    match color {
        Color::Rgb { r, g, b } => {
            lemma_decimal_digits(extended);
            lemma_decimal_digits(r as nat);
            lemma_decimal_digits(g as nat);
            lemma_decimal_digits(b as nat);
        },
        _ => {
            let (number, is_bright) = color.palette()->0;
            lemma_decimal_digits(
                if is_bright {
                    bright + number
                } else {
                    normal + number
                },
            );
        },
    }
}

/// The escape sequences of a colour, and those that reset the colours and
/// start bold text, take no column, are closed, and end no line.
pub proof fn lemma_columns_of_color(color: Color)
    ensures
        columns(color.foreground_view()) == 0,
        closed(color.foreground_view()),
        line_ends(color.foreground_view()) == 0,
        columns(color.background_view()) == 0,
        closed(color.background_view()),
        line_ends(color.background_view()) == 0,
        columns(Color::RESET@) == 0,
        closed(Color::RESET@),
        line_ends(Color::RESET@) == 0,
        columns(Color::BOLD@) == 0,
        closed(Color::BOLD@),
        line_ends(Color::BOLD@) == 0,
{
    lemma_parameters_of_color(color, 30, 90, 38);
    lemma_columns_of_escape(color.parameters(30, 90, 38));
    lemma_parameters_of_color(color, 40, 100, 48);
    lemma_columns_of_escape(color.parameters(40, 100, 48));
    crate::color::lemma_reset_and_bold();
    lemma_decimal_digits(0);
    lemma_decimal_digits(1);
    lemma_columns_of_escape(decimal(0));
    lemma_columns_of_escape(decimal(1));
}

} // verus!
