//! The state of the program, and what its loop decides: which clock to
//! start with, what a key or a new size of the terminal leads to, how new
//! settings are taken over, and what is drawn.
//!
//! The loop itself stands outside: it waits for events, hands them in, and
//! does what comes back.

use vstd::prelude::*;
use vstd::string::*;

use crate::cli::{Args, Mode, TimerArgs};
use crate::clock::counter::{Counter, CounterType, CounterView, NANOS_PER_SEC};
use crate::clock::mode::{ClockMode, ClockModeView};
use crate::clock::time_zone::TimeZone;
use crate::clock::{Clock, ClockView};
use crate::config::{pick, Config, Settings};
use crate::error::{Error, ErrorView};
use crate::text::utf8_len;

verus! {

/// The key of a key event, as far as the clock tells keys apart.
#[derive(Clone, Copy, Debug, PartialEq, Eq, Structural)]
pub enum KeyCode {
    Esc,
    Char(char),
    Other,
}

/// The keys held down with a key: none, shift alone, control alone, or
/// anything else.
#[derive(Clone, Copy, Debug, PartialEq, Eq, Structural)]
pub enum Modifiers {
    Plain,
    Shift,
    Control,
    Other,
}

/// Whether a key went down, is held, or went up.
#[derive(Clone, Copy, Debug, PartialEq, Eq, Structural)]
pub enum KeyKind {
    Press,
    Repeat,
    Release,
}

/// A key event.
#[derive(Clone, Copy, Debug, PartialEq, Eq, Structural)]
pub struct KeyEvent {
    pub code: KeyCode,
    pub modifiers: Modifiers,
    pub kind: KeyKind,
}

/// What the terminal reports.
#[derive(Clone, Copy, Debug, PartialEq, Eq, Structural)]
pub enum Event {
    /// A key.
    Key(KeyEvent),
    /// The terminal now has that many columns and lines.
    Resize(u16, u16),
    /// Anything else.
    Other,
}

/// What the loop is to do after an event.
#[derive(Clone, Copy, Debug, PartialEq, Eq, Structural)]
pub enum Action {
    /// Go on: draw the next frame.
    Continue,
    /// Leave the loop and end the program in good order.
    Exit,
    /// Lay the clock out anew for the size that the terminal reports, then
    /// clear the screen and go on.
    Relayout,
    /// Lay the clock out anew for that many columns and lines, then clear
    /// the screen and go on.
    Resize(u16, u16),
    /// Ask for the settings to be read anew before the next frame.
    Reload,
}

/// What a key does to a counter.
#[derive(Clone, Copy, Debug, PartialEq, Eq, Structural)]
pub enum CounterKey {
    TogglePause,
    Restart,
}

/// What is to be drawn.
#[derive(Debug)]
pub enum Render {
    /// Nothing: the terminal is too small for the clock.
    Skip,
    /// This frame, from line `top` of the screen on.
    Draw { top: u16, frame: String },
    /// Nothing more: the timer has run out, and the program is to end at
    /// once and to report a failure.
    Kill,
}

/// The state of the program: the clock, and the milliseconds to wait for an
/// event before the next frame is drawn.
#[derive(Debug)]
pub struct State {
    clock: Clock,
    interval: u64,
}

/// The state as plain values.
pub struct StateView {
    pub clock: ClockView,
    pub interval: u64,
}

/// Whether `key` ends the program: Esc, `q` or `Q` with no other key held,
/// or `c` with control.
pub open spec fn key_quits(key: KeyEvent) -> bool {
    ||| key.modifiers is Plain && (key.code is Esc || key.code == KeyCode::Char('q') || key.code
        == KeyCode::Char('Q'))
    ||| key.modifiers is Control && key.code == KeyCode::Char('c')
}

/// What `key` does to a counter, if anything: pressed with no other key
/// held or with shift, `p` or `P` toggles the pause and `r` or `R` starts
/// the counter anew.
pub open spec fn counter_key(key: KeyEvent) -> Option<CounterKey> {
    if key.kind is Press && (key.modifiers is Plain || key.modifiers is Shift) {
        if key.code == KeyCode::Char('p') || key.code == KeyCode::Char('P') {
            Some(CounterKey::TogglePause)
        } else if key.code == KeyCode::Char('r') || key.code == KeyCode::Char('R') {
            Some(CounterKey::Restart)
        } else {
            None
        }
    } else {
        None
    }
}

/// Whether `key` asks for the settings to be read anew: `r` with control.
pub open spec fn key_reloads(key: KeyEvent) -> bool {
    key.modifiers is Control && key.code == KeyCode::Char('r')
}

/// The nanoseconds that a timer runs. Where no part is given it runs the
/// default time. Else the seconds and the minutes have to be below 60 and
/// the hours below 100, and the first part that is not is reported.
pub open spec fn timer_duration(args: TimerArgs) -> Result<u64, ErrorView> {
    if args.seconds is None && args.minutes is None && args.hours is None {
        Ok((Counter::DEFAULT_TIMER_DURATION * NANOS_PER_SEC) as u64)
    } else {
        let seconds = pick(args.seconds, 0);
        let minutes = pick(args.minutes, 0);
        let hours = pick(args.hours, 0);
        if seconds >= 60 {
            Err(ErrorView::TooManySeconds(seconds))
        } else if minutes >= 60 {
            Err(ErrorView::TooManyMinutes(minutes))
        } else if hours >= 100 {
            Err(ErrorView::TooManyHours(hours))
        } else {
            Ok(((seconds + 60 * minutes + 3600 * hours) * NANOS_PER_SEC) as u64)
        }
    }
}

/// What the clock shows for `mode` under `settings`, if it starts at `now`.
/// Without a mode it shows the time of day.
pub open spec fn mode_for(mode: Option<Mode>, settings: Settings, now: u64) -> Result<
    ClockModeView,
    ErrorView,
> {
    match mode {
        Some(Mode::Clock) | None => Ok(
            ClockModeView::Time {
                time_zone: if settings.utc {
                    TimeZone::Utc
                } else {
                    TimeZone::Local
                },
                date_format: settings.fmt,
            },
        ),
        Some(Mode::Timer(args)) => match timer_duration(args) {
            Ok(duration) => Ok(
                ClockModeView::Counter(
                    CounterView::started(CounterType::Timer { duration, kill: args.kill }, now),
                ),
            ),
            Err(e) => Err(e),
        },
        Some(Mode::Stopwatch) => Ok(
            ClockModeView::Counter(CounterView::started(CounterType::Stopwatch, now)),
        ),
    }
}

impl StateView {
    /// What the loop is to do after `event`.
    ///
    /// A key that quits ends the loop. A key for the counter leads to a new
    /// layout where the clock shows a counter, and to nothing where it
    /// shows the time of day. A new size leads to a new layout for that
    /// size. Everything else is passed over.
    pub open spec fn decision(self, event: Event) -> Action {
        match event {
            Event::Key(key) => if key_quits(key) {
                Action::Exit
            } else if counter_key(key) is Some {
                if self.clock.mode is Counter {
                    Action::Relayout
                } else {
                    Action::Continue
                }
            } else if key_reloads(key) {
                Action::Reload
            } else {
                Action::Continue
            },
            Event::Resize(width, height) => Action::Resize(width, height),
            Event::Other => Action::Continue,
        }
    }

    /// The state after `event` at the instant `now`: a key for the counter
    /// acts on the counter, and nothing else changes.
    pub open spec fn after(self, event: Event, now: u64) -> StateView {
        match (event, self.clock.mode) {
            (Event::Key(key), ClockModeView::Counter(counter)) => if !key_quits(key) {
                match counter_key(key) {
                    Some(CounterKey::TogglePause) => self.with_counter(counter.toggled(now)),
                    Some(CounterKey::Restart) => self.with_counter(counter.restarted(now)),
                    None => self,
                }
            } else {
                self
            },
            _ => self,
        }
    }

    /// The state with `counter` in the place of its counter.
    pub open spec fn with_counter(self, counter: CounterView) -> StateView {
        StateView {
            clock: ClockView { mode: ClockModeView::Counter(counter), ..self.clock },
            ..self
        }
    }

    /// The state after the settings were read anew: every setting is taken
    /// over. The clock goes on to show what it shows: a counter stays as it
    /// is, and the time of day takes the zone and the format of the date
    /// from the settings. The padding stays until the clock is laid out.
    pub open spec fn reloaded(self, settings: Settings) -> StateView {
        StateView {
            clock: ClockView {
                mode: match self.clock.mode {
                    ClockModeView::Counter(counter) => ClockModeView::Counter(counter),
                    ClockModeView::Time { .. } => ClockModeView::Time {
                        time_zone: if settings.utc {
                            TimeZone::Utc
                        } else {
                            TimeZone::Local
                        },
                        date_format: settings.fmt,
                    },
                },
                padding: self.clock.padding,
                interval: settings.interval,
                x_pos: settings.x,
                y_pos: settings.y,
                color: settings.color,
                use_12h: settings.use_12h,
                hide_seconds: settings.hide_seconds,
                blink: settings.blink,
                bold: settings.bold,
            },
            interval: settings.interval,
        }
    }
}

impl View for State {
    type V = StateView;

    closed spec fn view(&self) -> StateView {
        StateView { clock: self.clock@, interval: self.interval }
    }
}

impl State {
    /// Sets the program up: the settings of the command line are laid over
    /// `config`, the clock is made for the mode of the command line, and
    /// laid out for a terminal of `width` columns and `height` lines.
    pub fn new(args: Args, config: Config, width: u16, height: u16, now: u64) -> (r: Result<
        Self,
        Error,
    >)
        ensures
            ({
                let settings = args.overlay().over(config@);
                match mode_for(args.mode, settings, now) {
                    Err(e) => r matches Err(err) && err@ == e,
                    Ok(mode) => match r {
                        Ok(state) => {
                            &&& state@.interval == settings.interval
                            &&& match mode {
                                ClockModeView::Counter(counter) => state@.clock
                                    == ClockView::fresh(settings, mode).laid_out(
                                    width,
                                    height,
                                    utf8_len(counter.text()),
                                ),
                                ClockModeView::Time { .. } => ClockView::fresh(
                                    settings,
                                    mode,
                                ).laid_out_for_a_date(state@.clock, width, height),
                            }
                        },
                        Err(Error::DateFormatInvalid { fmt, .. }) => mode is Time && fmt@
                            == settings.fmt,
                        Err(Error::DateFormatTooWide { fmt_len, max_len }) => mode is Time
                            && max_len == ClockView::fresh(settings, mode).width() && fmt_len
                            > max_len,
                        Err(_) => false,
                    },
                }
            }),
    {
        let mut config = config;
        let mode = args.mode;
        args.overwrite(&mut config);
        let clock_mode = match Self::clock_mode(mode, &config, now) {
            Ok(clock_mode) => clock_mode,
            Err(e) => {
                return Err(e);
            },
        };
        let interval = config.general.interval;
        let mut clock = Clock::new(config, clock_mode);
        match clock.update_padding(width, height) {
            Ok(()) => {},
            Err(e) => {
                return Err(e);
            },
        }
        Ok(State { clock, interval })
    }

    /// The clock for `mode` under the settings of `config`; a counter
    /// starts at the instant `now`.
    pub fn clock_mode(mode: Option<Mode>, config: &Config, now: u64) -> (r: Result<
        ClockMode,
        Error,
    >)
        ensures
            match mode_for(mode, config@, now) {
                Ok(view) => r matches Ok(clock_mode) && clock_mode@ == view,
                Err(e) => r matches Err(err) && err@ == e,
            },
    {
        match mode {
            Some(Mode::Clock) | None => Ok(
                ClockMode::Time {
                    time_zone: TimeZone::from_utc(config.date.utc),
                    date_format: config.date.fmt.clone(),
                },
            ),
            Some(Mode::Timer(args)) => {
                let total_seconds = if args.seconds.is_none() && args.minutes.is_none()
                    && args.hours.is_none() {
                    Counter::DEFAULT_TIMER_DURATION
                } else {
                    let seconds = match args.seconds {
                        Some(seconds) => seconds,
                        None => 0,
                    };
                    let minutes = match args.minutes {
                        Some(minutes) => minutes,
                        None => 0,
                    };
                    let hours = match args.hours {
                        Some(hours) => hours,
                        None => 0,
                    };
                    if seconds >= 60 {
                        return Err(Error::TooManySeconds(seconds));
                    }
                    if minutes >= 60 {
                        return Err(Error::TooManyMinutes(minutes));
                    }
                    if hours >= 100 {
                        return Err(Error::TooManyHours(hours));
                    }
                    seconds + 60 * minutes + 3600 * hours
                };
                Ok(
                    ClockMode::Counter(
                        Counter::new(
                            CounterType::Timer {
                                duration: total_seconds * NANOS_PER_SEC,
                                kill: args.kill,
                            },
                            now,
                        ),
                    ),
                )
            },
            Some(Mode::Stopwatch) => Ok(
                ClockMode::Counter(Counter::new(CounterType::Stopwatch, now)),
            ),
        }
    }

    /// Takes an event at the instant `now`, lets a key for the counter act
    /// on the counter, and says what the loop is to do next.
    pub fn on_event(&mut self, event: Event, now: u64) -> (action: Action)
        ensures
            action == old(self)@.decision(event),
            final(self)@ == old(self)@.after(event, now),
    {
        match event {
            Event::Key(key) => {
                if quits(key) {
                    return Action::Exit;
                }
                match counter_action(key) {
                    Some(counter_key) => {
                        match &mut self.clock.mode {
                            ClockMode::Counter(counter) => {
                                match counter_key {
                                    CounterKey::TogglePause => counter.toggle_pause(now),
                                    CounterKey::Restart => counter.restart(now),
                                }
                                Action::Relayout
                            },
                            ClockMode::Time { .. } => Action::Continue,
                        }
                    },
                    None => {
                        if reloads(key) {
                            Action::Reload
                        } else {
                            Action::Continue
                        }
                    },
                }
            },
            Event::Resize(width, height) => Action::Resize(width, height),
            Event::Other => Action::Continue,
        }
    }

    /// Lays the clock out for a terminal of `width` columns and `height`
    /// lines. Where the date cannot be shown, the failure is returned and
    /// the state stays as it was.
    pub fn relayout(&mut self, width: u16, height: u16) -> (r: Result<(), Error>)
        ensures
            r is Err ==> final(self)@ == old(self)@,
            final(self)@.interval == old(self)@.interval,
            final(self)@.clock.mode == old(self)@.clock.mode,
            match old(self)@.clock.mode {
                ClockModeView::Counter(counter) => r is Ok && final(self)@.clock == old(
                    self,
                )@.clock.laid_out(width, height, utf8_len(counter.text())),
                ClockModeView::Time { date_format, .. } => match r {
                    Ok(()) => old(self)@.clock.laid_out_for_a_date(
                        final(self)@.clock,
                        width,
                        height,
                    ),
                    Err(Error::DateFormatInvalid { fmt, .. }) => fmt@ == date_format,
                    Err(Error::DateFormatTooWide { fmt_len, max_len }) => max_len == old(
                        self,
                    )@.clock.width() && fmt_len > max_len,
                    Err(_) => false,
                },
            },
    {
        self.clock.update_padding(width, height)
    }

    /// Takes over settings that were read anew. The clock is to be laid
    /// out and the screen cleared afterwards.
    pub fn reload(&mut self, config: Config)
        ensures
            final(self)@ == old(self)@.reloaded(config@),
            old(self)@.clock.mode is Counter ==> final(self)@.clock.mode == old(self)@.clock.mode,
            old(self)@.clock.mode is Time ==> final(self)@.clock.mode is Time,
            final(self)@.clock.padding == old(self)@.clock.padding,
    {
        self.clock.color = config.general.color;
        self.interval = config.general.interval;
        self.clock.interval = config.general.interval;
        self.clock.blink = config.general.blink;
        self.clock.bold = config.general.bold;
        self.clock.x_pos = config.position.x;
        self.clock.y_pos = config.position.y;
        self.clock.use_12h = config.date.use_12h;
        self.clock.hide_seconds = config.date.hide_seconds;
        match &mut self.clock.mode {
            ClockMode::Time { time_zone, date_format } => {
                *time_zone = TimeZone::from_utc(config.date.utc);
                *date_format = config.date.fmt;
            },
            ClockMode::Counter(_) => {},
        }
    }

    /// What is to be drawn on a terminal of `width` columns and `height`
    /// lines at the instant `now`: nothing where the terminal is too small,
    /// else the frame of the clock, unless the timer has run out.
    pub fn render(&self, width: u16, height: u16, now: u64) -> (r: Result<Render, Error>)
        ensures
            self@.clock.too_large(width, height) ==> r matches Ok(Render::Skip),
            !self@.clock.too_large(width, height) ==> match self@.clock.mode {
                ClockModeView::Counter(counter) => match r {
                    Ok(Render::Kill) => counter.expired(now),
                    Ok(Render::Draw { top, frame }) => !counter.expired(now) && top
                        == self@.clock.padding.top && frame@ == self@.clock.frame(
                        counter.reading(now)->0,
                        counter.text(),
                    ),
                    _ => false,
                },
                ClockModeView::Time { date_format, .. } => match r {
                    Ok(Render::Draw { top, frame }) => top == self@.clock.padding.top
                        && self@.clock.shows_time_of_day(frame@),
                    Err(Error::DateFormatInvalid { fmt, .. }) => fmt@ == date_format,
                    Err(Error::DateFormatTooWide { fmt_len, max_len }) => max_len
                        == self@.clock.width() && fmt_len > max_len,
                    _ => false,
                },
            },
    {
        if self.clock.is_too_large(width, height) {
            return Ok(Render::Skip);
        }
        match self.clock.fmt(now) {
            Ok(Some(frame)) => Ok(Render::Draw { top: self.clock.padding.top, frame }),
            Ok(None) => Ok(Render::Kill),
            Err(e) => Err(e),
        }
    }

    /// The clock.
    pub fn clock(&self) -> (clock: &Clock)
        ensures
            clock@ == self@.clock,
    {
        &self.clock
    }

    /// The milliseconds to wait for an event before the next frame.
    pub fn interval(&self) -> (interval: u64)
        ensures
            interval == self@.interval,
    {
        self.interval
    }
}

fn quits(key: KeyEvent) -> (b: bool)
    ensures
        b == key_quits(key),
{
    match key.modifiers {
        Modifiers::Plain => match key.code {
            KeyCode::Esc => true,
            KeyCode::Char(c) => c == 'q' || c == 'Q',
            KeyCode::Other => false,
        },
        Modifiers::Control => match key.code {
            KeyCode::Char(c) => c == 'c',
            _ => false,
        },
        _ => false,
    }
}

fn counter_action(key: KeyEvent) -> (r: Option<CounterKey>)
    ensures
        r == counter_key(key),
{
    let pressed = match key.kind {
        KeyKind::Press => true,
        _ => false,
    };
    let plain = match key.modifiers {
        Modifiers::Plain | Modifiers::Shift => true,
        _ => false,
    };
    if pressed && plain {
        match key.code {
            KeyCode::Char(c) => {
                if c == 'p' || c == 'P' {
                    Some(CounterKey::TogglePause)
                } else if c == 'r' || c == 'R' {
                    Some(CounterKey::Restart)
                } else {
                    None
                }
            },
            _ => None,
        }
    } else {
        None
    }
}

fn reloads(key: KeyEvent) -> (b: bool)
    ensures
        b == key_reloads(key),
{
    match (key.modifiers, key.code) {
        (Modifiers::Control, KeyCode::Char(c)) => c == 'r',
        _ => false,
    }
}

} // verus!
