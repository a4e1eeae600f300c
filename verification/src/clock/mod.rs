//! The clock: what it shows, where it stands on the screen, and the frame
//! that it draws.

pub mod counter;
pub mod mode;
pub mod time_zone;

use vstd::prelude::*;
use vstd::string::*;

use crate::character::{law_uniform_width, Character};
use crate::clock::mode::{ClockMode, ClockModeView};
use crate::color::Color;
use crate::config::{Config, Settings};
use crate::error::Error;
use crate::position::Position;
use crate::screen::{
    closed, columns, columns_from, escaped_after, lemma_columns_add, lemma_columns_of_color,
    lemma_columns_of_spaces, lemma_line_ends_add, lemma_line_ends_none, line_ends,
};
use crate::text::{blank, byte_len, spaces, utf8_len};

verus! {

/// The blanks that put the clock in its place: the lines above it, and what
/// stands before each row of the digits and before the line of text.
#[derive(Debug)]
pub struct Padding {
    pub top: u16,
    pub clock: String,
    pub text: String,
}

/// The padding as plain values.
pub struct PaddingView {
    pub top: u16,
    pub clock: Seq<char>,
    pub text: Seq<char>,
}

impl View for Padding {
    type V = PaddingView;

    open spec fn view(&self) -> PaddingView {
        PaddingView { top: self.top, clock: self.clock@, text: self.text@ }
    }
}

impl Default for Padding {
    fn default() -> (padding: Self)
        ensures
            padding@ == (PaddingView { top: 0, clock: Seq::empty(), text: Seq::empty() }),
    {
        Padding { top: 0, clock: String::new(), text: String::new() }
    }
}

/// The clock with its settings.
#[derive(Debug)]
pub struct Clock {
    pub mode: ClockMode,
    pub padding: Padding,
    pub interval: u64,
    pub x_pos: Position,
    pub y_pos: Position,
    pub color: Color,
    pub use_12h: bool,
    pub hide_seconds: bool,
    pub blink: bool,
    pub bold: bool,
}

/// The clock as plain values.
pub struct ClockView {
    pub mode: ClockModeView,
    pub padding: PaddingView,
    pub interval: u64,
    pub x_pos: Position,
    pub y_pos: Position,
    pub color: Color,
    pub use_12h: bool,
    pub hide_seconds: bool,
    pub blink: bool,
    pub bold: bool,
}

impl View for Clock {
    type V = ClockView;

    open spec fn view(&self) -> ClockView {
        ClockView {
            mode: self.mode@,
            padding: self.padding@,
            interval: self.interval,
            x_pos: self.x_pos,
            y_pos: self.y_pos,
            color: self.color,
            use_12h: self.use_12h,
            hide_seconds: self.hide_seconds,
            blink: self.blink,
            bold: self.bold,
        }
    }
}

/// The digit of the tens of `n`, as the clock shows it.
pub open spec fn tens(n: u32) -> u32 {
    ((n / 10) % 10) as u32
}

/// The digit of the units of `n`.
pub open spec fn units(n: u32) -> u32 {
    (n % 10) as u32
}

impl ClockView {
    /// A clock with those settings that shows `mode` and has no padding
    /// yet.
    pub open spec fn fresh(settings: Settings, mode: ClockModeView) -> ClockView {
        ClockView {
            mode,
            padding: PaddingView { top: 0, clock: Seq::empty(), text: Seq::empty() },
            interval: settings.interval,
            x_pos: settings.x,
            y_pos: settings.y,
            color: settings.color,
            use_12h: settings.use_12h,
            hide_seconds: settings.hide_seconds,
            blink: settings.blink,
            bold: settings.bold,
        }
    }

    /// The columns that the digits take.
    pub open spec fn width(self) -> u16 {
        if self.hide_seconds {
            Clock::WIDTH_NO_SECONDS
        } else {
            Clock::WIDTH
        }
    }

    /// Whether a terminal of `width` columns and `height` lines is too
    /// small for the clock: it is unless it leaves more than one column
    /// beside the digits and more than one line beside the clock.
    pub open spec fn too_large(self, width: u16, height: u16) -> bool {
        self.width() + 1 >= width || Clock::HEIGHT + 1 >= height
    }

    /// Whether the time is shown in twelve hours with a suffix: only the
    /// time of day is.
    pub open spec fn twelve_hour(self) -> bool {
        self.use_12h && self.mode is Time
    }

    /// The bytes of the suffix of the hour as it is drawn: those of the
    /// suffix where the time is shown in twelve hours, none elsewhere. A
    /// counter has no suffix, whatever the settings.
    pub open spec fn suffix_len(self) -> nat {
        if self.twelve_hour() {
            Clock::SUFFIX_LEN as nat
        } else {
            0
        }
    }

    /// The padding on a terminal of `width` columns and `height` lines,
    /// for a line of text of `text_len` bytes.
    ///
    /// The digits stand where the horizontal position puts content of
    /// their width, and the clock where the vertical position puts content
    /// of its height. The text is centred under the digits as it is drawn,
    /// with the suffix of the hour where it has one; a text wider than the
    /// digits starts where they start.
    pub open spec fn padding_for(self, width: u16, height: u16, text_len: nat) -> PaddingView {
        let half_width = self.width() as int / 2;
        let column = self.x_pos.offset_of(width as int, half_width);
        let half_text = (text_len + self.suffix_len()) as int / 2;
        let inset = if half_width >= half_text {
            half_width - half_text
        } else {
            0
        };
        PaddingView {
            top: self.y_pos.offset_of(height as int, Clock::HEIGHT as int / 2) as u16,
            clock: spaces(column as nat),
            text: spaces((column + inset) as nat),
        }
    }

    /// The clock with the padding for that terminal and that text.
    pub open spec fn laid_out(self, width: u16, height: u16, text_len: nat) -> ClockView {
        ClockView { padding: self.padding_for(width, height, text_len), ..self }
    }

    /// The hour that the digits show. In twelve hours, noon and the hours
    /// after it are counted from noon, and noon itself is shown as 12; the
    /// hours before noon are shown as they are.
    pub open spec fn shown_hour(self, hour: u32) -> u32 {
        if self.twelve_hour() && hour >= 12 {
            if hour == 12 {
                12
            } else {
                (hour - 12) as u32
            }
        } else {
            hour
        }
    }

    /// What follows the text: in twelve hours the half of the day.
    pub open spec fn suffix(self, hour: u32) -> Seq<char> {
        if !self.twelve_hour() {
            Seq::empty()
        } else if hour < 12 {
            Clock::AM_SUFFIX@
        } else {
            Clock::PM_SUFFIX@
        }
    }

    /// The glyph between hours, minutes and seconds: the separator, but
    /// nothing during the odd seconds where the separator blinks.
    pub open spec fn separator(self, second: u32) -> Character {
        if self.blink && second % 2 == 1 {
            Character::Empty
        } else {
            Character::Colon
        }
    }

    /// Row `row` of the digits at `time`: the padding, that row of every
    /// glyph from left to right, and the end of the line. The glyphs are
    /// two digits each for the hour, the minute and, unless they are
    /// hidden, the second, with a separator between them. Of a number of a
    /// hundred or more the last two digits are shown.
    pub open spec fn row(self, time: (u32, u32, u32), row: int) -> Seq<char> {
        let hour = self.shown_hour(time.0);
        let separator = self.separator(time.2);
        let head = self.padding.clock + Character::Num(tens(hour)).drawn(self.color, row)
            + Character::Num(units(hour)).drawn(self.color, row) + separator.drawn(
            self.color,
            row,
        ) + Character::Num(tens(time.1)).drawn(self.color, row) + Character::Num(
            units(time.1),
        ).drawn(self.color, row);
        if self.hide_seconds {
            head + seq!['\r', '\n']
        } else {
            head + separator.drawn(self.color, row) + Character::Num(tens(time.2)).drawn(
                self.color,
                row,
            ) + Character::Num(units(time.2)).drawn(self.color, row) + seq!['\r', '\n']
        }
    }

    /// The line of text under the digits: after an empty line, in bold if
    /// so set, padded, in the colour of the clock, and with the suffix of
    /// the hour.
    pub open spec fn text_line(self, hour: u32, text: Seq<char>) -> Seq<char> {
        seq!['\n'] + (if self.bold {
            Color::BOLD@
        } else {
            Seq::empty()
        }) + self.padding.text + self.color.foreground_view() + text + self.suffix(hour)
            + seq!['\n']
    }

    /// The frame that shows `time` over `text`: the five rows of the
    /// digits, then the line of text.
    pub open spec fn frame(self, time: (u32, u32, u32), text: Seq<char>) -> Seq<char> {
        self.row(time, 0) + self.row(time, 1) + self.row(time, 2) + self.row(time, 3) + self.row(
            time,
            4,
        ) + self.text_line(time.0, text)
    }

    /// Whether `frame` shows some time of day over some date that fits
    /// under the digits.
    pub open spec fn shows_time_of_day(self, frame: Seq<char>) -> bool {
        exists|time: (u32, u32, u32), text: Seq<char>|
            time.0 < 24 && time.1 < 60 && time.2 < 60 && utf8_len(text) <= self.width() && frame
                == #[trigger] self.frame(time, text)
    }

    /// Whether `after` is this clock laid out for some date that fits under
    /// the digits.
    pub open spec fn laid_out_for_a_date(self, after: ClockView, width: u16, height: u16) -> bool {
        exists|text_len: nat|
            text_len <= self.width() && after == #[trigger] self.laid_out(
                width,
                height,
                text_len,
            )
    }
}

impl Clock {
    /// The columns of the digits with the seconds.
    pub const WIDTH: u16 = 51;

    /// The columns of the digits without the seconds.
    pub const WIDTH_NO_SECONDS: u16 = 32;

    /// The lines of the clock: five of digits, an empty one and the text.
    pub const HEIGHT: u16 = 7;

    /// The bytes of the suffix of the hour.
    pub const SUFFIX_LEN: u16 = 5;

    /// The suffix of the hours before noon.
    pub const AM_SUFFIX: &'static str = " [AM]";

    /// The suffix of noon and the hours after it.
    pub const PM_SUFFIX: &'static str = " [PM]";

    /// A clock with the settings of `config` that shows `mode`. It has no
    /// padding yet.
    pub fn new(config: Config, mode: ClockMode) -> (clock: Self)
        ensures
            clock@ == ClockView::fresh(config@, mode@),
            clock.mode == mode,
    {
        Clock {
            mode,
            padding: Padding::default(),
            interval: config.general.interval,
            x_pos: config.position.x,
            y_pos: config.position.y,
            color: config.general.color,
            use_12h: config.date.use_12h,
            hide_seconds: config.date.hide_seconds,
            blink: config.general.blink,
            bold: config.general.bold,
        }
    }

    /// Sets the padding for a terminal of `width` columns and `height`
    /// lines and a line of text of `text_len` bytes, the suffix of the hour
    /// not counted: it is counted in here where it is drawn.
    pub fn layout(&mut self, width: u16, height: u16, text_len: usize)
        ensures
            final(self)@ == old(self)@.laid_out(width, height, text_len as nat),
            final(self).mode == old(self).mode,
    {
        let suffix: usize = if self.use_12h && matches!(self.mode, ClockMode::Time { .. }) {
            Self::SUFFIX_LEN as usize
        } else {
            0
        };
        let half_text = text_len / 2 + (text_len % 2 + suffix) / 2;
        let half_width = self.width() / 2;
        let column = self.x_pos.calculate(width, half_width);
        let inset = (half_width as usize).saturating_sub(half_text);
        self.padding.top = self.y_pos.calculate(height, Self::HEIGHT / 2);
        self.padding.clock = blank(column as usize);
        self.padding.text = blank(column as usize + inset);
    }

    /// Sets the padding for a terminal of `width` columns and `height`
    /// lines and the text that the clock shows now.
    ///
    /// A counter is always laid out, for its line of help. The time of day
    /// is laid out for the date of today; where the date cannot be shown,
    /// the failure is returned and the clock stays as it was.
    pub fn update_padding(&mut self, width: u16, height: u16) -> (r: Result<(), Error>)
        ensures
            r is Err ==> *final(self) == *old(self),
            final(self).mode == old(self).mode,
            match old(self)@.mode {
                ClockModeView::Counter(counter) => r is Ok && final(self)@ == old(self)@.laid_out(
                    width,
                    height,
                    utf8_len(counter.text()),
                ),
                ClockModeView::Time { date_format, .. } => match r {
                    Ok(()) => old(self)@.laid_out_for_a_date(final(self)@, width, height),
                    Err(Error::DateFormatInvalid { fmt, .. }) => fmt@ == date_format,
                    Err(Error::DateFormatTooWide { fmt_len, max_len }) => max_len == old(
                        self,
                    )@.width() && fmt_len > max_len,
                    Err(_) => false,
                },
            },
    {
        let clock_width = self.width();
        let text = match self.mode.text(clock_width) {
            Ok(text) => text,
            Err(e) => {
                return Err(e);
            },
        };
        let text_len = byte_len(text.as_str());
        self.layout(width, height, text_len);
        Ok(())
    }

    /// Whether a terminal of `width` columns and `height` lines is too
    /// small for the clock. On such a terminal nothing is drawn.
    pub fn is_too_large(&self, width: u16, height: u16) -> (b: bool)
        ensures
            b == self@.too_large(width, height),
    {
        self.width() + 1 >= width || Self::HEIGHT + 1 >= height
    }

    /// The columns that the digits take.
    pub fn width(&self) -> (w: u16)
        ensures
            w == self@.width(),
            w == Clock::WIDTH || w == Clock::WIDTH_NO_SECONDS,
    {
        if self.hide_seconds {
            return Self::WIDTH_NO_SECONDS;
        }
        Self::WIDTH
    }

    fn row(&self, time: (u32, u32, u32), row: usize) -> (line: String)
        requires
            row < Character::ROWS,
        ensures
            line@ == self@.row(time, row as int),
    {
        let (hour, minute, second) = time;
        let hour = self.hour(hour);
        let colon = if self.blink && second % 2 == 1 {
            Character::Empty
        } else {
            Character::Colon
        };
        let color = &self.color;
        let mut line = self.padding.clock.clone();
        line.append(Character::Num((hour / 10) % 10).fmt(color, row).as_str());
        line.append(Character::Num(hour % 10).fmt(color, row).as_str());
        line.append(colon.fmt(color, row).as_str());
        line.append(Character::Num((minute / 10) % 10).fmt(color, row).as_str());
        line.append(Character::Num(minute % 10).fmt(color, row).as_str());
        if !self.hide_seconds {
            line.append(colon.fmt(color, row).as_str());
            line.append(Character::Num((second / 10) % 10).fmt(color, row).as_str());
            line.append(Character::Num(second % 10).fmt(color, row).as_str());
        }
        proof {
            reveal_strlit("\r\n");
            assert("\r\n"@ =~= seq!['\r', '\n']);
        }
        line.append("\r\n");
        line
    }

    fn text_line(&self, hour: u32, text: &str) -> (line: String)
        ensures
            line@ == self@.text_line(hour, text@),
    {
        proof {
            reveal_strlit("\n");
            reveal_strlit("");
            assert("\n"@ =~= seq!['\n']);
            assert(""@ =~= Seq::<char>::empty());
        }
        let bold = if self.bold {
            Color::BOLD
        } else {
            ""
        };
        let suffix = if self.use_12h && matches!(self.mode, ClockMode::Time { .. }) {
            if hour < 12 {
                Self::AM_SUFFIX
            } else {
                Self::PM_SUFFIX
            }
        } else {
            ""
        };
        let mut line = String::from_str("\n");
        line.append(bold);
        line.append(self.padding.text.as_str());
        line.append(self.color.foreground().as_str());
        line.append(text);
        line.append(suffix);
        line.append("\n");
        line
    }

    fn hour(&self, hour: u32) -> (shown: u32)
        ensures
            shown == self@.shown_hour(hour),
    {
        if self.use_12h && matches!(self.mode, ClockMode::Time { .. }) && hour >= 12 {
            if hour == 12 {
                12
            } else {
                hour - 12
            }
        } else {
            hour
        }
    }

    /// Draws the frame that shows `time` over `text`.
    pub fn compose(&self, time: (u32, u32, u32), text: &str) -> (frame: String)
        ensures
            frame@ == self@.frame(time, text@),
    {
        let mut out = self.row(time, 0);
        out.append(self.row(time, 1).as_str());
        out.append(self.row(time, 2).as_str());
        out.append(self.row(time, 3).as_str());
        out.append(self.row(time, 4).as_str());
        out.append(self.text_line(time.0, text).as_str());
        out
    }

    /// Draws the frame that the clock shows now.
    ///
    /// A counter is read at the instant `now`; when it says that the
    /// program is to end, there is no frame. The time of day and the date
    /// are read from the clock of the system.
    pub fn fmt(&self, now: u64) -> (r: Result<Option<String>, Error>)
        ensures
            match self@.mode {
                ClockModeView::Counter(counter) => match r {
                    Ok(None) => counter.expired(now),
                    Ok(Some(frame)) => !counter.expired(now) && frame@ == self@.frame(
                        counter.reading(now)->0,
                        counter.text(),
                    ),
                    Err(_) => false,
                },
                ClockModeView::Time { date_format, .. } => match r {
                    Ok(None) => false,
                    Ok(Some(frame)) => self@.shows_time_of_day(frame@),
                    Err(Error::DateFormatInvalid { fmt, .. }) => fmt@ == date_format,
                    Err(Error::DateFormatTooWide { fmt_len, max_len }) => max_len
                        == self@.width() && fmt_len > max_len,
                    Err(_) => false,
                },
            },
    {
        let text = match self.mode.text(self.width()) {
            Ok(text) => text,
            Err(e) => {
                return Err(e);
            },
        };
        match self.mode.get_time(now) {
            None => Ok(None),
            Some(time) => {
                let frame = self.compose(time, text.as_str());
                Ok(Some(frame))
            },
        }
    }
}

/// A glyph after a closed text adds its columns to those of the text, and
/// ends no line.
proof fn lemma_columns_with_glyph(before: Seq<char>, glyph: Character, color: Color, row: int)
    requires
        closed(before),
    ensures
        columns(before + glyph.drawn(color, row)) == columns(before) + glyph.columns(),
        closed(before + glyph.drawn(color, row)),
        line_ends(before + glyph.drawn(color, row)) == line_ends(before),
{
    law_uniform_width(glyph, color, row);
    lemma_columns_add(before, glyph.drawn(color, row));
    lemma_line_ends_add(before, glyph.drawn(color, row));
}

/// A row of the digits takes on the screen what its padding takes, the
/// width of the digits, and the one column that follows the last glyph.
/// It ends one line more than its padding does.
pub proof fn law_row_columns(clock: ClockView, time: (u32, u32, u32), row: int)
    requires
        closed(clock.padding.clock),
    ensures
        columns(clock.row(time, row)) == columns(clock.padding.clock) + clock.width() + 1,
        closed(clock.row(time, row)),
        line_ends(clock.row(time, row)) == line_ends(clock.padding.clock) + 1,
{
    let color = clock.color;
    let hour = clock.shown_hour(time.0);
    let separator = clock.separator(time.2);
    let end = seq!['\r', '\n'];
    assert(columns(end) == 0 && closed(end) && line_ends(end) == 1) by {
        reveal_with_fuel(escaped_after, 3);
        reveal_with_fuel(columns_from, 3);
        reveal_with_fuel(line_ends, 3);
        assert(end.drop_last() =~= seq!['\r']);
        assert(end.drop_last().drop_last() =~= Seq::<char>::empty());
    }
    let s0 = clock.padding.clock;
    let s1 = s0 + Character::Num(tens(hour)).drawn(color, row);
    let s2 = s1 + Character::Num(units(hour)).drawn(color, row);
    let s3 = s2 + separator.drawn(color, row);
    let s4 = s3 + Character::Num(tens(time.1)).drawn(color, row);
    let s5 = s4 + Character::Num(units(time.1)).drawn(color, row);
    lemma_columns_with_glyph(s0, Character::Num(tens(hour)), color, row);
    lemma_columns_with_glyph(s1, Character::Num(units(hour)), color, row);
    lemma_columns_with_glyph(s2, separator, color, row);
    lemma_columns_with_glyph(s3, Character::Num(tens(time.1)), color, row);
    lemma_columns_with_glyph(s4, Character::Num(units(time.1)), color, row);
    if clock.hide_seconds {
        lemma_columns_add(s5, end);
        lemma_line_ends_add(s5, end);
    } else {
        let s6 = s5 + separator.drawn(color, row);
        let s7 = s6 + Character::Num(tens(time.2)).drawn(color, row);
        let s8 = s7 + Character::Num(units(time.2)).drawn(color, row);
        lemma_columns_with_glyph(s5, separator, color, row);
        lemma_columns_with_glyph(s6, Character::Num(tens(time.2)), color, row);
        lemma_columns_with_glyph(s7, Character::Num(units(time.2)), color, row);
        lemma_columns_add(s8, end);
        lemma_line_ends_add(s8, end);
    }
}

/// The line of text ends two lines, the empty one before it and its own,
/// as long as its padding and the text end none themselves.
proof fn lemma_text_line_ends(clock: ClockView, hour: u32, text: Seq<char>)
    requires
        line_ends(clock.padding.text) == 0,
        line_ends(text) == 0,
    ensures
        line_ends(clock.text_line(hour, text)) == 2,
{
    let feed = seq!['\n'];
    assert(line_ends(feed) == 1) by {
        reveal_with_fuel(line_ends, 2);
        assert(feed.drop_last() =~= Seq::<char>::empty());
    }
    lemma_columns_of_color(clock.color);
    let bold = if clock.bold {
        Color::BOLD@
    } else {
        Seq::empty()
    };
    let suffix = clock.suffix(hour);
    assert(line_ends(suffix) == 0) by {
        reveal_strlit(" [AM]");
        reveal_strlit(" [PM]");
        lemma_line_ends_none(suffix);
    }
    let t1 = feed + bold;
    let t2 = t1 + clock.padding.text;
    let t3 = t2 + clock.color.foreground_view();
    let t4 = t3 + text;
    let t5 = t4 + suffix;
    lemma_line_ends_add(feed, bold);
    lemma_line_ends_add(t1, clock.padding.text);
    lemma_line_ends_add(t2, clock.color.foreground_view());
    lemma_line_ends_add(t3, text);
    lemma_line_ends_add(t4, suffix);
    lemma_line_ends_add(t5, feed);
}

/// A frame is as many lines high as the clock is said to be: five rows of
/// digits, an empty line and the line of text, as long as the padding and
/// the text end no line themselves.
pub proof fn law_frame_height(clock: ClockView, time: (u32, u32, u32), text: Seq<char>)
    requires
        closed(clock.padding.clock),
        line_ends(clock.padding.clock) == 0,
        line_ends(clock.padding.text) == 0,
        line_ends(text) == 0,
    ensures
        line_ends(clock.frame(time, text)) == Clock::HEIGHT,
{
    let r0 = clock.row(time, 0);
    let r1 = clock.row(time, 1);
    let r2 = clock.row(time, 2);
    let r3 = clock.row(time, 3);
    let r4 = clock.row(time, 4);
    law_row_columns(clock, time, 0);
    law_row_columns(clock, time, 1);
    law_row_columns(clock, time, 2);
    law_row_columns(clock, time, 3);
    law_row_columns(clock, time, 4);
    lemma_text_line_ends(clock, time.0, text);
    lemma_line_ends_add(r0, r1);
    lemma_line_ends_add(r0 + r1, r2);
    lemma_line_ends_add(r0 + r1 + r2, r3);
    lemma_line_ends_add(r0 + r1 + r2 + r3, r4);
    lemma_line_ends_add(r0 + r1 + r2 + r3 + r4, clock.text_line(time.0, text));
}

/// The line of text, as it is drawn with the suffix of the hour where it
/// has one, is centred under the digits, wherever the digits stand: its
/// middle lies under theirs. A line that is longer than the digits are wide
/// starts where they start.
pub proof fn law_text_is_centred(clock: ClockView, width: u16, height: u16, text_len: nat)
    ensures
        ({
            let placed = clock.laid_out(width, height, text_len);
            let drawn = text_len + (if clock.mode is Time && clock.use_12h {
                5nat
            } else {
                0nat
            });
            &&& placed.padding.clock.len() == clock.x_pos.offset_of(
                width as int,
                clock.width() as int / 2,
            )
            &&& drawn / 2 <= clock.width() / 2 ==> placed.padding.text.len() + drawn / 2
                == placed.padding.clock.len() + clock.width() / 2
            &&& drawn / 2 > clock.width() / 2 ==> placed.padding.text == placed.padding.clock
        }),
{
}

/// On a terminal that is not too small, a clock that is laid out for it
/// stays on the screen: no row of the digits takes more columns than the
/// terminal has, and the frame, which starts at the line of the padding,
/// ends within the lines of the terminal.
pub proof fn law_clock_fits_the_terminal(
    clock: ClockView,
    width: u16,
    height: u16,
    text_len: nat,
    time: (u32, u32, u32),
    text: Seq<char>,
    row: int,
)
    requires
        !clock.too_large(width, height),
        line_ends(text) == 0,
    ensures
        columns(clock.laid_out(width, height, text_len).row(time, row)) <= width,
        clock.laid_out(width, height, text_len).padding.top + line_ends(
            clock.laid_out(width, height, text_len).frame(time, text),
        ) <= height,
{
    let placed = clock.laid_out(width, height, text_len);
    let half_width = clock.width() as int / 2;
    let column = clock.x_pos.offset_of(width as int, half_width);
    let half_text = (text_len + clock.suffix_len()) as int / 2;
    let inset = if half_width >= half_text {
        half_width - half_text
    } else {
        0
    };
    lemma_columns_of_spaces(column as nat);
    lemma_columns_of_spaces((column + inset) as nat);
    law_row_columns(placed, time, row);
    law_frame_height(placed, time, text);
}

} // verus!
