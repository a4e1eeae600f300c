//! Terminal colours: their names, their `#rrggbb` notation and the escape
//! sequences that select them.

use vstd::prelude::*;
use vstd::string::*;

use crate::text::{byte_len, decimal, push_decimal, utf8_len};

verus! {

/// A colour of the terminal: one of the sixteen of the palette, or any
/// colour given by its red, green and blue parts.
#[derive(Clone, Copy, Debug, PartialEq, Eq, Structural)]
pub enum Color {
    Black,
    Red,
    Green,
    Yellow,
    Blue,
    Magenta,
    Cyan,
    White,
    BrightBlack,
    BrightRed,
    BrightGreen,
    BrightYellow,
    BrightBlue,
    BrightMagenta,
    BrightCyan,
    BrightWhite,
    Rgb { r: u8, g: u8, b: u8 },
}

impl Default for Color {
    fn default() -> (c: Self)
        ensures
            c == Color::White,
    {
        Color::White
    }
}

impl std::str::FromStr for Color {
    type Err = String;

    /// Reads a colour from its name or from `#rrggbb`, as `Color::from_str`
    /// does.
    fn from_str(s: &str) -> (r: Result<Self, String>)
        ensures
            r matches Ok(c) ==> Color::denoted(s@) == Ok::<Color, Seq<char>>(c),
            r matches Err(e) ==> Color::denoted(s@) == Err::<Color, Seq<char>>(e@),
    {
        Color::from_str(s)
    }
}

/// The escape sequence that sets the graphic rendition given by `params`.
pub open spec fn escape(params: Seq<char>) -> Seq<char> {
    seq!['\x1B', '['] + params + seq!['m']
}

/// The value of a hexadecimal digit, if `c` is one.
pub open spec fn hex_value(c: char) -> Option<nat> {
    if '0' <= c <= '9' {
        Some((c as u32 - '0' as u32) as nat)
    } else if 'a' <= c <= 'f' {
        Some((c as u32 - 'a' as u32 + 10) as nat)
    } else if 'A' <= c <= 'F' {
        Some((c as u32 - 'A' as u32 + 10) as nat)
    } else {
        None
    }
}

/// The value of one part of a `#rrggbb` colour: exactly two hexadecimal
/// digits.
pub open spec fn component(s: Seq<char>) -> Option<u8> {
    if s.len() == 2 && hex_value(s[0]) is Some && hex_value(s[1]) is Some {
        Some((16 * hex_value(s[0])->0 + hex_value(s[1])->0) as u8)
    } else {
        None
    }
}

/// What a part that is not two hexadecimal digits is rejected with.
pub open spec fn invalid_digit() -> Seq<char> {
    "invalid digit found in string"@
}

/// What a `#` colour of the wrong length is rejected with.
pub open spec fn format_error(s: Seq<char>) -> Seq<char> {
    "expected format `#rrggbb`, found `"@ + s + "`"@
}

/// What stands between two accepted values in the message: the end of the
/// green of one value, a comma, and the green of the next.
pub open spec fn value_separator() -> Seq<char> {
    Color::RESET@ + ","@ + Color::Green.foreground_view() + " "@
}

/// The first `n` of the accepted values, separated.
pub open spec fn listed_values(n: nat) -> Seq<char>
    decreases n,
{
    if n == 0 {
        Seq::empty()
    } else if n == 1 {
        Color::POSSIBLE_VALUES[0]@
    } else {
        listed_values((n - 1) as nat) + value_separator() + Color::POSSIBLE_VALUES[n - 1]@
    }
}

/// What a text that is neither a name nor a `#` colour is rejected with:
/// the text, and every accepted value in green.
pub open spec fn unknown_error(s: Seq<char>) -> Seq<char> {
    "color `"@ + s
        + "` is neither a recognized color nor a valid hex color code.\n  [possible values: "@
        + Color::Green.foreground_view() + listed_values(Color::POSSIBLE_VALUES@.len())
        + Color::RESET@ + "]"@
}

impl Color {
    /// The escape sequence that ends every rendition.
    pub const RESET: &'static str = "\x1B[0m";

    /// The escape sequence that starts bold text.
    pub const BOLD: &'static str = "\x1B[1m";

    /// The values that the message for an unknown colour lists: the names
    /// of the palette, and the notation of any other colour.
    pub const POSSIBLE_VALUES: [&'static str; 17] = [
        "black",
        "red",
        "green",
        "yellow",
        "blue",
        "magenta",
        "cyan",
        "white",
        "bright-black",
        "bright-red",
        "bright-green",
        "bright-yellow",
        "bright-blue",
        "bright-magenta",
        "bright-cyan",
        "bright-white",
        "'#rrggbb'",
    ];

    /// For a colour of the palette its number there, from 0 to 7, and
    /// whether it is the bright one of that number.
    pub open spec fn palette(self) -> Option<(nat, bool)> {
        match self {
            Color::Black => Some((0, false)),
            Color::Red => Some((1, false)),
            Color::Green => Some((2, false)),
            Color::Yellow => Some((3, false)),
            Color::Blue => Some((4, false)),
            Color::Magenta => Some((5, false)),
            Color::Cyan => Some((6, false)),
            Color::White => Some((7, false)),
            Color::BrightBlack => Some((0, true)),
            Color::BrightRed => Some((1, true)),
            Color::BrightGreen => Some((2, true)),
            Color::BrightYellow => Some((3, true)),
            Color::BrightBlue => Some((4, true)),
            Color::BrightMagenta => Some((5, true)),
            Color::BrightCyan => Some((6, true)),
            Color::BrightWhite => Some((7, true)),
            Color::Rgb { .. } => None,
        }
    }

    /// The parameters that select this colour, where a colour of the
    /// palette is counted from `normal` or from `bright`, and any other
    /// colour is announced by `extended`.
    pub open spec fn parameters(self, normal: nat, bright: nat, extended: nat) -> Seq<char> {
        match self {
            Color::Rgb { r, g, b } => decimal(extended) + seq![';', '2', ';'] + decimal(r as nat)
                + seq![';'] + decimal(g as nat) + seq![';'] + decimal(b as nat),
            _ => {
                let (number, is_bright) = self.palette()->0;
                decimal(
                    if is_bright {
                        bright + number
                    } else {
                        normal + number
                    },
                )
            },
        }
    }

    /// The escape sequence that makes this colour the colour of the text.
    pub open spec fn foreground_view(self) -> Seq<char> {
        escape(self.parameters(30, 90, 38))
    }

    /// The escape sequence that makes this colour the colour behind the
    /// text.
    pub open spec fn background_view(self) -> Seq<char> {
        escape(self.parameters(40, 100, 48))
    }

    /// The colour of the palette that `s` names.
    pub open spec fn named(s: Seq<char>) -> Option<Color> {
        if s == "black"@ {
            Some(Color::Black)
        } else if s == "red"@ {
            Some(Color::Red)
        } else if s == "green"@ {
            Some(Color::Green)
        } else if s == "yellow"@ {
            Some(Color::Yellow)
        } else if s == "blue"@ {
            Some(Color::Blue)
        } else if s == "magenta"@ {
            Some(Color::Magenta)
        } else if s == "cyan"@ {
            Some(Color::Cyan)
        } else if s == "white"@ {
            Some(Color::White)
        } else if s == "bright-black"@ {
            Some(Color::BrightBlack)
        } else if s == "bright-red"@ {
            Some(Color::BrightRed)
        } else if s == "bright-green"@ {
            Some(Color::BrightGreen)
        } else if s == "bright-yellow"@ {
            Some(Color::BrightYellow)
        } else if s == "bright-blue"@ {
            Some(Color::BrightBlue)
        } else if s == "bright-magenta"@ {
            Some(Color::BrightMagenta)
        } else if s == "bright-cyan"@ {
            Some(Color::BrightCyan)
        } else if s == "bright-white"@ {
            Some(Color::BrightWhite)
        } else {
            None
        }
    }

    /// The colour that `s` denotes, or the message it is rejected with.
    ///
    /// A name of the palette denotes its colour. Any other text that starts
    /// with `#` must be seven bytes long, `#` and three parts of two
    /// hexadecimal digits each. Everything else is unknown.
    pub open spec fn denoted(s: Seq<char>) -> Result<Color, Seq<char>> {
        if Color::named(s) is Some {
            Ok(Color::named(s)->0)
        } else if s.len() > 0 && s[0] == '#' {
            if utf8_len(s) != 7 {
                Err(format_error(s))
            } else if s.len() == 7 && component(s.subrange(1, 3)) is Some && component(
                s.subrange(3, 5),
            ) is Some && component(s.subrange(5, 7)) is Some {
                Ok(
                    Color::Rgb {
                        r: component(s.subrange(1, 3))->0,
                        g: component(s.subrange(3, 5))->0,
                        b: component(s.subrange(5, 7))->0,
                    },
                )
            } else {
                Err(invalid_digit())
            }
        } else {
            Err(unknown_error(s))
        }
    }

    /// Reads a colour from its name or from `#rrggbb`.
    pub fn from_str(s: &str) -> (r: Result<Color, String>)
        ensures
            r matches Ok(c) ==> Color::denoted(s@) == Ok::<Color, Seq<char>>(c),
            r matches Err(e) ==> Color::denoted(s@) == Err::<Color, Seq<char>>(e@),
    {
        if same_text(s, "black") {
            return Ok(Color::Black);
        }
        if same_text(s, "red") {
            return Ok(Color::Red);
        }
        if same_text(s, "green") {
            return Ok(Color::Green);
        }
        if same_text(s, "yellow") {
            return Ok(Color::Yellow);
        }
        if same_text(s, "blue") {
            return Ok(Color::Blue);
        }
        if same_text(s, "magenta") {
            return Ok(Color::Magenta);
        }
        if same_text(s, "cyan") {
            return Ok(Color::Cyan);
        }
        if same_text(s, "white") {
            return Ok(Color::White);
        }
        if same_text(s, "bright-black") {
            return Ok(Color::BrightBlack);
        }
        if same_text(s, "bright-red") {
            return Ok(Color::BrightRed);
        }
        if same_text(s, "bright-green") {
            return Ok(Color::BrightGreen);
        }
        if same_text(s, "bright-yellow") {
            return Ok(Color::BrightYellow);
        }
        if same_text(s, "bright-blue") {
            return Ok(Color::BrightBlue);
        }
        if same_text(s, "bright-magenta") {
            return Ok(Color::BrightMagenta);
        }
        if same_text(s, "bright-cyan") {
            return Ok(Color::BrightCyan);
        }
        if same_text(s, "bright-white") {
            return Ok(Color::BrightWhite);
        }
        let chars = s.unicode_len();
        if chars > 0 && s.get_char(0) == '#' {
            if byte_len(s) != 7 {
                let mut message = String::from_str("expected format `#rrggbb`, found `");
                message.append(s);
                message.append("`");
                return Err(message);
            }
            if chars != 7 {
                return Err(String::from_str("invalid digit found in string"));
            }
            let red = match Self::parse_rgb_component(s.substring_char(1, 3)) {
                Ok(v) => v,
                Err(e) => {
                    return Err(e);
                },
            };
            let green = match Self::parse_rgb_component(s.substring_char(3, 5)) {
                Ok(v) => v,
                Err(e) => {
                    return Err(e);
                },
            };
            let blue = match Self::parse_rgb_component(s.substring_char(5, 7)) {
                Ok(v) => v,
                Err(e) => {
                    return Err(e);
                },
            };
            return Ok(Color::Rgb { r: red, g: green, b: blue });
        }
        let green_fg = Color::Green.foreground();
        let mut message = String::from_str("color `");
        message.append(s);
        message.append(
            "` is neither a recognized color nor a valid hex color code.\n  [possible values: ",
        );
        message.append(green_fg.as_str());
        let mut i: usize = 0;
        let ghost head = message@;
        while i < Self::POSSIBLE_VALUES.len()
            invariant
                i <= Self::POSSIBLE_VALUES@.len(),
                green_fg@ == Color::Green.foreground_view(),
                message@ == head + listed_values(i as nat),
            decreases Self::POSSIBLE_VALUES@.len() - i,
        {
            if i > 0 {
                message.append(Self::RESET);
                message.append(",");
                message.append(green_fg.as_str());
                message.append(" ");
            }
            message.append(Self::POSSIBLE_VALUES[i]);
            i += 1;
            assert(message@ =~= head + listed_values(i as nat));
        }
        message.append(Self::RESET);
        message.append("]");
        Err(message)
    }

    /// The escape sequence that makes this colour the colour of the text.
    pub fn foreground(&self) -> (s: String)
        ensures
            s@ == self.foreground_view(),
    {
        self.select(30, 90, 38)
    }

    /// The escape sequence that makes this colour the colour behind the
    /// text.
    pub fn background(&self) -> (s: String)
        ensures
            s@ == self.background_view(),
    {
        self.select(40, 100, 48)
    }

    fn select(&self, normal: u64, bright: u64, extended: u64) -> (s: String)
        requires
            normal <= 1000,
            bright <= 1000,
        ensures
            s@ == escape(self.parameters(normal as nat, bright as nat, extended as nat)),
    {
        proof {
            reveal_strlit("\x1B[");
            reveal_strlit(";2;");
            reveal_strlit(";");
            reveal_strlit("m");
        }
        let mut s = String::from_str("\x1B[");
        match self {
            Color::Rgb { r, g, b } => {
                push_decimal(&mut s, extended);
                s.append(";2;");
                push_decimal(&mut s, *r as u64);
                s.append(";");
                push_decimal(&mut s, *g as u64);
                s.append(";");
                push_decimal(&mut s, *b as u64);
            },
            _ => {
                let (number, is_bright) = self.palette_number();
                push_decimal(
                    &mut s,
                    if is_bright {
                        bright + number
                    } else {
                        normal + number
                    },
                );
            },
        }
        s.append("m");
        s
    }

    fn palette_number(&self) -> (r: (u64, bool))
        requires
            self.palette() is Some,
        ensures
            self.palette() == Some((r.0 as nat, r.1)),
            r.0 < 8,
    {
        match self {
            Color::Black => (0, false),
            Color::Red => (1, false),
            Color::Green => (2, false),
            Color::Yellow => (3, false),
            Color::Blue => (4, false),
            Color::Magenta => (5, false),
            Color::Cyan => (6, false),
            Color::White => (7, false),
            Color::BrightBlack => (0, true),
            Color::BrightRed => (1, true),
            Color::BrightGreen => (2, true),
            Color::BrightYellow => (3, true),
            Color::BrightBlue => (4, true),
            Color::BrightMagenta => (5, true),
            Color::BrightCyan => (6, true),
            Color::BrightWhite => (7, true),
            Color::Rgb { .. } => (0, false),
        }
    }

    /// Reads one part of a `#rrggbb` colour: two hexadecimal digits.
    pub fn parse_rgb_component(hex: &str) -> (r: Result<u8, String>)
        ensures
            r matches Ok(v) ==> component(hex@) == Some(v),
            r matches Err(e) ==> component(hex@) is None && e@ == invalid_digit(),
    {
        if hex.unicode_len() == 2 {
            if let Some(high) = hex_digit(hex.get_char(0)) {
                if let Some(low) = hex_digit(hex.get_char(1)) {
                    return Ok(high * 16 + low);
                }
            }
        }
        Err(String::from_str("invalid digit found in string"))
    }
}

/// `RESET` ends every rendition, and `BOLD` starts bold text.
pub proof fn lemma_reset_and_bold()
    ensures
        Color::RESET@ == escape(decimal(0)),
        Color::BOLD@ == escape(decimal(1)),
{
    reveal_strlit("\x1B[0m");
    reveal_strlit("\x1B[1m");
    assert(Color::RESET@ =~= escape(decimal(0)));
    assert(Color::BOLD@ =~= escape(decimal(1)));
}

fn same_text(a: &str, b: &str) -> (r: bool)
    ensures
        r == (a@ == b@),
{
    String::from_str(a) == String::from_str(b)
}

fn hex_digit(c: char) -> (r: Option<u8>)
    ensures
        r matches Some(v) ==> hex_value(c) == Some(v as nat) && v < 16,
        r is None ==> hex_value(c) is None,
{
    let v = c as u32;
    if 48 <= v && v <= 57 {
        Some((v - 48) as u8)
    } else if 97 <= v && v <= 102 {
        Some((v - 97 + 10) as u8)
    } else if 65 <= v && v <= 70 {
        Some((v - 65 + 10) as u8)
    } else {
        None
    }
}

} // verus!
