//! What the command line gives: the mode of the clock and settings that
//! take precedence over every other source.

use vstd::prelude::*;

use crate::color::Color;
use crate::config::{flag, text_of, Config, Overlay};
use crate::position::Position;

verus! {

/// The options of the command line.
#[derive(Clone, Debug, PartialEq, Eq)]
pub struct Args {
    pub mode: Option<Mode>,
    pub color: Option<Color>,
    pub x_pos: Option<Position>,
    pub y_pos: Option<Position>,
    pub fmt: Option<String>,
    pub use_12h: bool,
    pub interval: Option<u64>,
    pub utc: bool,
    pub hide_seconds: bool,
    pub blink: bool,
    pub bold: bool,
}

/// What the clock shows.
#[derive(Clone, Copy, Debug, PartialEq, Eq)]
pub enum Mode {
    /// The time of day.
    Clock,
    /// The time that is left of a given time.
    Timer(TimerArgs),
    /// The time since the start.
    Stopwatch,
}

/// The time that a timer runs, in parts, and whether the program ends when
/// it has run.
#[derive(Clone, Copy, Debug, PartialEq, Eq)]
pub struct TimerArgs {
    pub seconds: Option<u64>,
    pub minutes: Option<u64>,
    pub hours: Option<u64>,
    pub kill: bool,
}

impl Args {
    /// The settings that the command line gives. A switch can only turn a
    /// setting on: where it is not set it leaves the setting open.
    pub open spec fn overlay(&self) -> Overlay {
        Overlay {
            color: self.color,
            interval: self.interval,
            blink: flag(self.blink),
            bold: flag(self.bold),
            x: self.x_pos,
            y: self.y_pos,
            fmt: text_of(self.fmt),
            use_12h: flag(self.use_12h),
            utc: flag(self.utc),
            hide_seconds: flag(self.hide_seconds),
        }
    }

    /// Lays the settings of the command line over `config`: each one that
    /// the command line gives replaces that of `config`, every other stays.
    pub fn overwrite(self, config: &mut Config)
        ensures
            final(config)@ == self.overlay().over(old(config)@),
    {
        config.general.color = match self.color {
            Some(color) => color,
            None => config.general.color,
        };
        config.general.interval = match self.interval {
            Some(interval) => interval,
            None => config.general.interval,
        };
        config.position.x = match self.x_pos {
            Some(x_pos) => x_pos,
            None => config.position.x,
        };
        config.position.y = match self.y_pos {
            Some(y_pos) => y_pos,
            None => config.position.y,
        };
        config.general.blink = self.blink || config.general.blink;
        config.general.bold = self.bold || config.general.bold;
        config.date.use_12h = self.use_12h || config.date.use_12h;
        config.date.utc = self.utc || config.date.utc;
        config.date.hide_seconds = self.hide_seconds || config.date.hide_seconds;
        if let Some(fmt) = self.fmt {
            config.date.fmt = fmt;
        }
    }
}

} // verus!
