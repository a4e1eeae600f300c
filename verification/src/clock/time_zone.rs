//! The time of day and the date, in local time or in UTC.

use std::fmt::Write;

use chrono::{Local, Timelike, Utc};
use vstd::prelude::*;

use crate::error::{outcome, Error, ErrorView};
use crate::text::{byte_len, utf8_len};

verus! {

/// The zone in which the time of day is told.
#[derive(Clone, Copy, Debug, PartialEq, Eq, Structural)]
pub enum TimeZone {
    Local,
    Utc,
}

/// The characters of a formatted date, or of the reason why there is none.
pub open spec fn formatted_view(formatted: Result<String, String>) -> Result<Seq<char>, Seq<char>> {
    match formatted {
        Ok(text) => Ok(text@),
        Err(err) => Err(err@),
    }
}

impl TimeZone {
    /// UTC if `utc`, else local time.
    pub fn from_utc(utc: bool) -> (zone: Self)
        ensures
            zone == if utc {
                TimeZone::Utc
            } else {
                TimeZone::Local
            },
    {
        if utc {
            return TimeZone::Utc;
        }
        TimeZone::Local
    }

    /// The hour, minute and second of the time of day in this zone, at the
    /// moment of the call.
    pub fn get_time(&self) -> (t: (u32, u32, u32))
        ensures
            t.0 < 24,
            t.1 < 60,
            t.2 < 60,
    {
        match self {
            TimeZone::Utc => utc_time(),
            TimeZone::Local => local_time(),
        }
    }

    /// What becomes of a formatted date under a clock of `max_len` columns.
    ///
    /// A format that was rejected is reported with the format and the
    /// reason. A date of more than `max_len` bytes is reported with both
    /// lengths. Any other date is the text to show.
    pub open spec fn fitted(
        formatted: Result<Seq<char>, Seq<char>>,
        date_format: Seq<char>,
        max_len: u16,
    ) -> Result<Seq<char>, ErrorView> {
        match formatted {
            Err(err) => Err(ErrorView::DateFormatInvalid { fmt: date_format, err }),
            Ok(text) => if utf8_len(text) > max_len {
                Err(ErrorView::DateFormatTooWide { fmt_len: utf8_len(text) as usize, max_len })
            } else {
                Ok(text)
            },
        }
    }

    /// Whether `r` is what becomes of some formatted date, or of some
    /// rejection of the format, under a clock of `max_len` columns.
    pub open spec fn fits(
        r: Result<Seq<char>, ErrorView>,
        date_format: Seq<char>,
        max_len: u16,
    ) -> bool {
        exists|formatted: Result<Seq<char>, Seq<char>>|
            r == #[trigger] TimeZone::fitted(formatted, date_format, max_len)
    }

    /// Takes what formatting the date with `date_format` gave, and decides
    /// whether it can stand under a clock of `max_len` columns.
    pub fn fit(formatted: Result<String, String>, date_format: &str, max_len: u16) -> (r: Result<
        String,
        Error,
    >)
        ensures
            outcome(r) == TimeZone::fitted(formatted_view(formatted), date_format@, max_len),
            r matches Ok(text) ==> utf8_len(text@) <= max_len,
            r matches Err(Error::DateFormatTooWide { fmt_len, .. }) ==> fmt_len > max_len,
    {
        match formatted {
            Err(err) => Err(Error::DateFormatInvalid { fmt: date_format.to_owned(), err }),
            Ok(text) => {
                let len = byte_len(text.as_str());
                if len > max_len as usize {
                    Err(Error::DateFormatTooWide { fmt_len: len, max_len })
                } else {
                    Ok(text)
                }
            },
        }
    }

    /// The date of today in this zone, formatted with `date_format`, if the
    /// format is accepted and the date takes no more than `max_len` bytes.
    ///
    /// The date depends on the moment of the call. Whatever it is, the
    /// result is what `fit` makes of it.
    pub fn text(&self, date_format: &str, max_len: u16) -> (r: Result<String, Error>)
        ensures
            TimeZone::fits(outcome(r), date_format@, max_len),
            r matches Ok(text) ==> utf8_len(text@) <= max_len,
            r matches Err(e) ==> e@ is DateFormatInvalid || e@ is DateFormatTooWide,
            r matches Err(Error::DateFormatInvalid { fmt, .. }) ==> fmt@ == date_format@,
            r matches Err(Error::DateFormatTooWide { fmt_len, max_len: limit }) ==> limit
                == max_len && fmt_len > max_len,
    {
        let formatted = match self {
            TimeZone::Local => local_date(date_format),
            TimeZone::Utc => utc_date(date_format),
        };
        Self::fit(formatted, date_format, max_len)
    }
}

/// Reads the clock of the system with chrono's `Utc::now` and takes the
/// hour, minute and second of the time of day in UTC with `Timelike`.
///
/// The body is not verified. The bounds are what chrono's source shows: it
/// keeps the time of day as less than 86 400 seconds after midnight, and
/// takes hour, minute and second from them by division, so the hour is
/// below 24, and the minute and the second are below 60. The call fails
/// where the clock of the system stands before the year 1970.
#[verifier::external_body]
fn utc_time() -> (t: (u32, u32, u32))
    ensures
        t.0 < 24,
        t.1 < 60,
        t.2 < 60,
{
    let now = Utc::now();
    (now.hour(), now.minute(), now.second())
}

/// Reads the clock of the system with chrono's `Local::now` and takes the
/// hour, minute and second of the time of day in the zone of the system
/// with `Timelike`.
///
/// The body is not verified. The bounds are what chrono's source shows, as
/// for the time of day in UTC: the offset of the zone is added to the
/// seconds of the day, and the sum is taken modulo the seconds of a day.
/// The call fails where the clock of the system stands before the year
/// 1970, and where the description of the zone on this machine is broken:
/// where it has no rule for the moment, or gives an offset of a day or
/// more.
#[verifier::external_body]
fn local_time() -> (t: (u32, u32, u32))
    ensures
        t.0 < 24,
        t.1 < 60,
        t.2 < 60,
{
    let now = Local::now();
    (now.hour(), now.minute(), now.second())
}

/// Formats the current date and time in UTC, read with chrono's
/// `Utc::now`, with chrono's `DateTime::format`, and writes the result to a
/// string. Where chrono rejects an item of `date_format`, the write fails
/// and its reason is returned.
///
/// The body is not verified, and nothing is claimed of what it returns: the
/// text depends on the moment of the call. The call fails where the clock
/// of the system stands before the year 1970.
#[verifier::external_body]
fn utc_date(date_format: &str) -> Result<String, String> {
    let mut text = String::new();
    match write!(text, "{}", Utc::now().format(date_format)) {
        Ok(()) => Ok(text),
        Err(err) => Err(err.to_string()),
    }
}

/// Formats the current date and time in the zone of the system, read with
/// chrono's `Local::now`, with chrono's `DateTime::format`, and writes the
/// result to a string. Where chrono rejects an item of `date_format`, the
/// write fails and its reason is returned.
///
/// The body is not verified, and nothing is claimed of what it returns: the
/// text depends on the moment of the call and on the zone of the system.
/// The call fails where the clock of the system stands before the year
/// 1970, and where the description of the zone on this machine is broken:
/// where it has no rule for the moment, or gives an offset of a day or
/// more.
#[verifier::external_body]
fn local_date(date_format: &str) -> Result<String, String> {
    let mut text = String::new();
    match write!(text, "{}", Local::now().format(date_format)) {
        Ok(()) => Ok(text),
        Err(err) => Err(err.to_string()),
    }
}

} // verus!
