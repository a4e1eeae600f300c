//! What can go wrong, and how it is reported.

use vstd::prelude::*;
use vstd::string::*;

use crate::text::{decimal, push_decimal};

verus! {

/// A failure of the clock.
#[derive(Clone, Debug, PartialEq, Eq)]
pub enum Error {
    /// The seconds of a timer are 60 or more.
    TooManySeconds(u64),
    /// The minutes of a timer are 60 or more.
    TooManyMinutes(u64),
    /// The hours of a timer are 100 or more.
    TooManyHours(u64),
    /// The date, once formatted, is longer than the clock is wide.
    DateFormatTooWide { fmt_len: usize, max_len: u16 },
    /// The date format was rejected.
    DateFormatInvalid { fmt: String, err: String },
    /// The path of the configuration file is not Unicode.
    NonUnicodePath(String),
    /// The configuration file could not be read.
    ReadFile { path: String, err: String },
    /// The configuration file could not be understood.
    ParseToml { path: String, err: String },
    /// The terminal could not be read or written.
    Io(String),
}

/// A failure, with its texts as sequences of characters.
pub enum ErrorView {
    TooManySeconds(u64),
    TooManyMinutes(u64),
    TooManyHours(u64),
    DateFormatTooWide { fmt_len: usize, max_len: u16 },
    DateFormatInvalid { fmt: Seq<char>, err: Seq<char> },
    NonUnicodePath(Seq<char>),
    ReadFile { path: Seq<char>, err: Seq<char> },
    ParseToml { path: Seq<char>, err: Seq<char> },
    Io(Seq<char>),
}

impl View for Error {
    type V = ErrorView;

    open spec fn view(&self) -> ErrorView {
        match *self {
            Error::TooManySeconds(n) => ErrorView::TooManySeconds(n),
            Error::TooManyMinutes(n) => ErrorView::TooManyMinutes(n),
            Error::TooManyHours(n) => ErrorView::TooManyHours(n),
            Error::DateFormatTooWide { fmt_len, max_len } => ErrorView::DateFormatTooWide {
                fmt_len,
                max_len,
            },
            Error::DateFormatInvalid { fmt, err } => ErrorView::DateFormatInvalid {
                fmt: fmt@,
                err: err@,
            },
            Error::NonUnicodePath(path) => ErrorView::NonUnicodePath(path@),
            Error::ReadFile { path, err } => ErrorView::ReadFile { path: path@, err: err@ },
            Error::ParseToml { path, err } => ErrorView::ParseToml { path: path@, err: err@ },
            Error::Io(err) => ErrorView::Io(err@),
        }
    }
}

/// A text or a failure, as plain values.
pub open spec fn outcome(r: Result<String, Error>) -> Result<Seq<char>, ErrorView> {
    match r {
        Ok(text) => Ok(text@),
        Err(e) => Err(e@),
    }
}

impl ErrorView {
    /// The sentence that reports this failure.
    pub open spec fn message(self) -> Seq<char> {
        match self {
            ErrorView::TooManySeconds(n) => {
                "the seconds part of the timer must be under 60 seconds: "@ + decimal(n as nat)
                    + "s >= 60s"@
            },
            ErrorView::TooManyMinutes(n) => {
                "the minutes part of the timer must be under 60 minutes: "@ + decimal(n as nat)
                    + "m >= 60m"@
            },
            ErrorView::TooManyHours(n) => {
                "the hours part of the timer must be under 100 hours: "@ + decimal(n as nat)
                    + "h >= 100h"@
            },
            ErrorView::DateFormatTooWide { fmt_len, max_len } => {
                "the formatted date exceeds the clock's width: "@ + decimal(fmt_len as nat)
                    + " > "@ + decimal(max_len as nat)
            },
            ErrorView::DateFormatInvalid { fmt, err } => {
                "failed to format the date string `"@ + fmt + "`: "@ + err
            },
            ErrorView::NonUnicodePath(path) => {
                "configuration path is invalid unicode: `"@ + path + "`"@
            },
            ErrorView::ReadFile { path, err } => {
                "failed to read file `"@ + path + "`: "@ + err
            },
            ErrorView::ParseToml { path, err } => {
                "failed to parse configuration file `"@ + path + "`:\n"@ + err
            },
            ErrorView::Io(err) => "IO error: "@ + err,
        }
    }
}

impl Error {
    /// The sentence that reports this failure.
    pub fn message(&self) -> (s: String)
        ensures
            s@ == self@.message(),
    {
        match self {
            Error::TooManySeconds(n) => {
                let mut s = String::from_str(
                    "the seconds part of the timer must be under 60 seconds: ",
                );
                push_decimal(&mut s, *n);
                s.append("s >= 60s");
                s
            },
            Error::TooManyMinutes(n) => {
                let mut s = String::from_str(
                    "the minutes part of the timer must be under 60 minutes: ",
                );
                push_decimal(&mut s, *n);
                s.append("m >= 60m");
                s
            },
            Error::TooManyHours(n) => {
                let mut s = String::from_str(
                    "the hours part of the timer must be under 100 hours: ",
                );
                push_decimal(&mut s, *n);
                s.append("h >= 100h");
                s
            },
            Error::DateFormatTooWide { fmt_len, max_len } => {
                let mut s = String::from_str("the formatted date exceeds the clock's width: ");
                push_decimal(&mut s, *fmt_len as u64);
                s.append(" > ");
                push_decimal(&mut s, *max_len as u64);
                s
            },
            Error::DateFormatInvalid { fmt, err } => {
                let mut s = String::from_str("failed to format the date string `");
                s.append(fmt.as_str());
                s.append("`: ");
                s.append(err.as_str());
                s
            },
            Error::NonUnicodePath(path) => {
                let mut s = String::from_str("configuration path is invalid unicode: `");
                s.append(path.as_str());
                s.append("`");
                s
            },
            Error::ReadFile { path, err } => {
                let mut s = String::from_str("failed to read file `");
                s.append(path.as_str());
                s.append("`: ");
                s.append(err.as_str());
                s
            },
            Error::ParseToml { path, err } => {
                let mut s = String::from_str("failed to parse configuration file `");
                s.append(path.as_str());
                s.append("`:\n");
                s.append(err.as_str());
                s
            },
            Error::Io(err) => {
                let mut s = String::from_str("IO error: ");
                s.append(err.as_str());
                s
            },
        }
    }
}

} // verus!
