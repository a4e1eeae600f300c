//! What the clock shows: a counter, or the time of day with the date.

use vstd::prelude::*;
use vstd::string::*;

use crate::clock::counter::{Counter, CounterView};
use crate::clock::time_zone::TimeZone;
use crate::error::{outcome, Error};
use crate::text::utf8_len;

verus! {

/// What the clock shows.
#[derive(Debug)]
pub enum ClockMode {
    /// A stopwatch or a timer.
    Counter(Counter),
    /// The time of day in a zone, with the date in a format.
    Time { time_zone: TimeZone, date_format: String },
}

/// What the clock shows, as plain values.
pub enum ClockModeView {
    Counter(CounterView),
    Time { time_zone: TimeZone, date_format: Seq<char> },
}

impl View for ClockMode {
    type V = ClockModeView;

    open spec fn view(&self) -> ClockModeView {
        match *self {
            ClockMode::Counter(counter) => ClockModeView::Counter(counter@),
            ClockMode::Time { time_zone, date_format } => ClockModeView::Time {
                time_zone,
                date_format: date_format@,
            },
        }
    }
}

impl ClockMode {
    /// The hours, minutes and seconds to show. A counter gives what it
    /// shows at the instant `now`, and `None` when the program is to end.
    /// The time of day is read from the clock of the system.
    pub fn get_time(&self, now: u64) -> (r: Option<(u32, u32, u32)>)
        ensures
            match self@ {
                ClockModeView::Counter(counter) => r == counter.reading(now),
                ClockModeView::Time { .. } => r matches Some(t) && t.0 < 24 && t.1 < 60 && t.2
                    < 60,
            },
    {
        match self {
            ClockMode::Counter(counter) => counter.get_time(now),
            ClockMode::Time { time_zone, .. } => Some(time_zone.get_time()),
        }
    }

    /// The line of text under the digits, for a clock of `max_len` columns.
    /// A counter gives its line of help, whatever its length. The time of
    /// day gives the date of today, if that fits.
    pub fn text(&self, max_len: u16) -> (r: Result<String, Error>)
        ensures
            match self@ {
                ClockModeView::Counter(counter) => r matches Ok(text) && text@ == counter.text(),
                ClockModeView::Time { date_format, .. } => {
                    &&& TimeZone::fits(outcome(r), date_format, max_len)
                    &&& r matches Ok(text) ==> utf8_len(text@) <= max_len
                    &&& r matches Err(e) ==> e@ is DateFormatInvalid || e@ is DateFormatTooWide
                    &&& r matches Err(Error::DateFormatInvalid { fmt, .. }) ==> fmt@
                        == date_format
                    &&& r matches Err(Error::DateFormatTooWide { fmt_len, max_len: limit })
                        ==> limit == max_len && fmt_len > max_len
                },
            },
    {
        match self {
            ClockMode::Counter(counter) => Ok(String::from_str(counter.text())),
            ClockMode::Time { time_zone, date_format } => time_zone.text(
                date_format.as_str(),
                max_len,
            ),
        }
    }
}

impl Default for ClockMode {
    fn default() -> (mode: Self)
        ensures
            mode@ == (ClockModeView::Time {
                time_zone: TimeZone::Local,
                date_format: "%d-%m-%Y"@,
            }),
    {
        ClockMode::Time { time_zone: TimeZone::Local, date_format: String::from_str("%d-%m-%Y") }
    }
}

} // verus!
