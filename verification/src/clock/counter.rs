//! Counters: a stopwatch that counts up and a timer that counts down, both
//! of which can be paused and started anew.
//!
//! A counter does not read a clock. Every operation takes the instant at
//! which it happens, in nanoseconds on a clock that never runs backwards.

use vstd::prelude::*;

verus! {

/// The nanoseconds of one second.
pub const NANOS_PER_SEC: u64 = 1_000_000_000;

/// What a counter counts.
#[derive(Clone, Copy, Debug, PartialEq, Eq, Structural)]
pub enum CounterType {
    /// The time since the start.
    Stopwatch,
    /// What is left of `duration` nanoseconds; with `kill` the program is
    /// to end when nothing is left.
    Timer { duration: u64, kill: bool },
}

/// A stopwatch or a timer.
#[derive(Debug)]
pub struct Counter {
    start: u64,
    last_pause: Option<u64>,
    ty: CounterType,
}

/// A counter as plain values: when it started, when it was paused if it is
/// paused now, and what it counts.
pub struct CounterView {
    pub start: u64,
    pub paused_at: Option<u64>,
    pub kind: CounterType,
}

/// `a - b` where that is not negative, else zero.
pub open spec fn minus(a: int, b: int) -> int {
    if a >= b {
        a - b
    } else {
        0
    }
}

/// The hours, minutes and seconds that make up `secs` seconds.
pub open spec fn split(secs: nat) -> (u32, u32, u32) {
    ((secs / 3600) as u32, ((secs % 3600) / 60) as u32, (secs % 60) as u32)
}

impl CounterView {
    /// A counter is never paused before it started.
    pub open spec fn wf(self) -> bool {
        self.paused_at matches Some(p) ==> self.start <= p
    }

    /// Whether the counter stands still.
    pub open spec fn is_paused(self) -> bool {
        self.paused_at is Some
    }

    /// The nanoseconds that the counter has run at `now`: frozen at the
    /// instant of the pause while it is paused.
    pub open spec fn elapsed(self, now: u64) -> int {
        match self.paused_at {
            Some(p) => minus(p as int, self.start as int),
            None => minus(now as int, self.start as int),
        }
    }

    /// The nanoseconds that the counter shows at `now`. A stopwatch shows
    /// what has elapsed. A timer shows what is left of its duration, where
    /// the first second that elapsed does not count: so the last second
    /// stays on display for a full second before the timer is at zero.
    pub open spec fn shown_nanos(self, now: u64) -> int {
        match self.kind {
            CounterType::Stopwatch => self.elapsed(now),
            CounterType::Timer { duration, .. } => minus(
                duration as int,
                minus(self.elapsed(now), NANOS_PER_SEC as int),
            ),
        }
    }

    /// The whole seconds that the counter shows at `now`.
    pub open spec fn shown_secs(self, now: u64) -> nat {
        (self.shown_nanos(now) / NANOS_PER_SEC as int) as nat
    }

    /// Whether at `now` the program is to end: the counter is a timer that
    /// kills, and it shows zero.
    pub open spec fn expired(self, now: u64) -> bool {
        self.kind matches CounterType::Timer { kill: true, .. } && self.shown_secs(now) == 0
    }

    /// What the counter gives at `now`: the hours, minutes and seconds that
    /// it shows, or nothing when the program is to end.
    pub open spec fn reading(self, now: u64) -> Option<(u32, u32, u32)> {
        if self.expired(now) {
            None
        } else {
            Some(split(self.shown_secs(now)))
        }
    }

    /// The line of help that goes with the counter.
    pub open spec fn text(self) -> Seq<char> {
        if self.is_paused() {
            Counter::TEXT_PAUSED@
        } else {
            Counter::TEXT@
        }
    }

    /// A counter of kind `kind` that starts at `now`.
    pub open spec fn started(kind: CounterType, now: u64) -> CounterView {
        CounterView { start: now, paused_at: None, kind }
    }

    /// The counter after pause was toggled at `now`. A running counter is
    /// paused at `now`, or at its start if that is later. A paused counter
    /// runs again, and its start is moved on by the time that the pause
    /// took, so that it goes on from what it showed.
    pub open spec fn toggled(self, now: u64) -> CounterView {
        match self.paused_at {
            Some(p) => CounterView {
                start: (self.start + minus(now as int, p as int)) as u64,
                paused_at: None,
                kind: self.kind,
            },
            None => CounterView {
                start: self.start,
                paused_at: Some(
                    if now >= self.start {
                        now
                    } else {
                        self.start
                    },
                ),
                kind: self.kind,
            },
        }
    }

    /// The counter after it was started anew at `now`.
    pub open spec fn restarted(self, now: u64) -> CounterView {
        CounterView::started(self.kind, now)
    }
}

impl View for Counter {
    type V = CounterView;

    closed spec fn view(&self) -> CounterView {
        CounterView { start: self.start, paused_at: self.last_pause, kind: self.ty }
    }
}

impl Counter {
    /// The seconds of a timer for which no time was given.
    pub const DEFAULT_TIMER_DURATION: u64 = 5 * 60;

    /// The line of help under a counter that runs.
    pub const TEXT: &'static str = "P: Toggle Pause, R: Restart";

    /// The line of help under a counter that is paused.
    pub const TEXT_PAUSED: &'static str = "P: Toggle Pause, R: Restart [Paused]";

    #[verifier::type_invariant]
    closed spec fn inv(self) -> bool {
        self@.wf()
    }

    /// A counter that starts to run at `now`.
    pub fn new(ty: CounterType, now: u64) -> (c: Self)
        ensures
            c@ == CounterView::started(ty, now),
            c@.wf(),
    {
        Counter { start: now, last_pause: None, ty }
    }

    /// Pauses the counter if it runs, and lets it run again if it is
    /// paused. After a pause the counter goes on from what it showed when
    /// it was paused.
    pub fn toggle_pause(&mut self, now: u64)
        ensures
            final(self)@ == old(self)@.toggled(now),
            final(self)@.is_paused() == !old(self)@.is_paused(),
            old(self)@.wf(),
            final(self)@.wf(),
    {
        proof {
            use_type_invariant(&*self);
        }
        match self.last_pause {
            Some(last_pause) => {
                let start = self.start + now.saturating_sub(last_pause);
                *self = Counter { start, last_pause: None, ty: self.ty };
            },
            None => {
                let at = if now >= self.start {
                    now
                } else {
                    self.start
                };
                *self = Counter { start: self.start, last_pause: Some(at), ty: self.ty };
            },
        }
    }

    /// Starts the counter anew at `now`: it runs, and nothing has elapsed.
    pub fn restart(&mut self, now: u64)
        ensures
            final(self)@ == old(self)@.restarted(now),
            !final(self)@.is_paused(),
            final(self)@.elapsed(now) == 0,
            final(self)@.kind == old(self)@.kind,
            final(self)@.wf(),
    {
        *self = Counter { start: now, last_pause: None, ty: self.ty };
    }

    /// The hours, minutes and seconds that the counter shows at `now`, or
    /// `None` when a timer that kills has run out and the program is to
    /// end.
    pub fn get_time(&self, now: u64) -> (r: Option<(u32, u32, u32)>)
        ensures
            r == self@.reading(now),
            self@.wf(),
            r matches Some(t) ==> t.1 < 60 && t.2 < 60,
    {
        proof {
            use_type_invariant(self);
        }
        let elapsed = match self.last_pause {
            Some(last_pause) => last_pause - self.start,
            None => now.saturating_sub(self.start),
        };
        let secs = match self.ty {
            CounterType::Stopwatch => elapsed / NANOS_PER_SEC,
            CounterType::Timer { duration, kill } => {
                let left = duration.saturating_sub(elapsed.saturating_sub(NANOS_PER_SEC));
                let secs = left / NANOS_PER_SEC;
                if kill && secs == 0 {
                    return None;
                }
                secs
            },
        };
        let hours = secs / 3600;
        let minutes = (secs % 3600) / 60;
        let seconds = secs % 60;
        Some((hours as u32, minutes as u32, seconds as u32))
    }

    /// The line of help that goes with the counter.
    pub fn text(&self) -> (s: &'static str)
        ensures
            s@ == self@.text(),
    {
        if self.last_pause.is_some() {
            Self::TEXT_PAUSED
        } else {
            Self::TEXT
        }
    }

    /// Whether the counter stands still.
    pub fn is_paused(&self) -> (b: bool)
        ensures
            b == self@.is_paused(),
    {
        self.last_pause.is_some()
    }

    /// What the counter counts.
    pub fn ty(&self) -> (ty: CounterType)
        ensures
            ty == self@.kind,
    {
        self.ty
    }
}

/// While a counter is paused it shows what it showed at the instant of the
/// pause, however long the pause takes. After the pause it goes on from
/// there: at any instant `t` after a pause from `t1` to `t2` it shows what
/// it would have shown at `t - (t2 - t1)` without the pause, and so at `t2`
/// what it showed at `t1`.
pub proof fn law_pause_keeps_elapsed_time(c: CounterView, t1: u64, t2: u64, t: u64)
    requires
        c.wf(),
        !c.is_paused(),
        c.start <= t1 <= t2 <= t,
    ensures
        c.toggled(t1).is_paused(),
        c.toggled(t1).elapsed(t) == c.elapsed(t1),
        c.toggled(t1).shown_secs(t) == c.shown_secs(t1),
        !c.toggled(t1).toggled(t2).is_paused(),
        c.toggled(t1).toggled(t2).wf(),
        c.toggled(t1).toggled(t2).elapsed(t2) == c.elapsed(t1),
        c.toggled(t1).toggled(t2).elapsed(t) == c.elapsed((t - (t2 - t1)) as u64),
        c.toggled(t1).toggled(t2).shown_secs(t) == c.shown_secs((t - (t2 - t1)) as u64),
{
}

/// To toggle the pause twice at one instant changes nothing of what a
/// counter shows, then or later, and a counter that ran is as it was.
pub proof fn law_toggle_twice(c: CounterView, t: u64, later: u64)
    requires
        c.wf(),
        c.start <= t <= later,
        c.paused_at matches Some(p) ==> p <= t,
    ensures
        c.toggled(t).toggled(t).is_paused() == c.is_paused(),
        c.toggled(t).toggled(t).kind == c.kind,
        c.toggled(t).toggled(t).elapsed(later) == c.elapsed(later),
        !c.is_paused() ==> c.toggled(t).toggled(t) == c,
{
}

/// A counter that is started anew runs, whatever it did before, and shows
/// what a new counter of its kind shows: a stopwatch zero, a timer its full
/// duration.
pub proof fn law_restart_resets(c: CounterView, now: u64)
    ensures
        !c.restarted(now).is_paused(),
        c.restarted(now).wf(),
        c.restarted(now) == CounterView::started(c.kind, now),
        c.restarted(now).elapsed(now) == 0,
        c.kind is Stopwatch ==> c.restarted(now).shown_secs(now) == 0,
        c.kind matches CounterType::Timer { duration, .. } ==> c.restarted(now).shown_secs(now)
            == duration / NANOS_PER_SEC,
{
}

/// What a running timer shows never grows as time goes on, and is never
/// negative. After the first second that elapsed, it is one less with each
/// second, down to zero. Once more than the duration has elapsed it is
/// zero, and zero it stays.
pub proof fn law_timer_counts_down_to_zero(c: CounterView, t1: u64, t2: u64)
    requires
        c.wf(),
        c.kind is Timer,
        !c.is_paused(),
        t1 <= t2,
    ensures
        c.shown_secs(t2) <= c.shown_secs(t1),
        c.shown_secs(t1) <= c.kind->duration / NANOS_PER_SEC,
        c.elapsed(t1) <= NANOS_PER_SEC ==> c.shown_secs(t1) == c.kind->duration / NANOS_PER_SEC,
        c.elapsed(t1) >= NANOS_PER_SEC && t2 == t1 + NANOS_PER_SEC ==> c.shown_secs(t2) == minus(
            c.shown_secs(t1) as int,
            1,
        ),
        c.elapsed(t1) > c.kind->duration ==> c.shown_secs(t1) == 0 && c.shown_secs(t2) == 0,
        c.kind->kill == false ==> c.reading(t1) == Some(split(c.shown_secs(t1))),
{
    let second = NANOS_PER_SEC as int;
    if c.elapsed(t1) >= second && t2 == t1 + second {
        if c.shown_nanos(t1) >= second {
            assert(c.shown_nanos(t2) == c.shown_nanos(t1) - second);
        } else {
            assert(c.shown_nanos(t2) == 0);
        }
    }
}

/// A timer that kills asks for the end of the program as soon as more than
/// its duration has elapsed, and from then on. It does not ask for it
/// before its duration has elapsed, unless that duration is a part of a
/// second: then the timer shows zero from its start.
pub proof fn law_kill_when_time_is_up(c: CounterView, now: u64)
    requires
        c.wf(),
        c.kind matches CounterType::Timer { kill: true, .. },
    ensures
        c.elapsed(now) > c.kind->duration ==> c.expired(now) && c.reading(now) is None,
        !(0 < c.kind->duration < NANOS_PER_SEC) && c.expired(now) ==> c.elapsed(now)
            >= c.kind->duration,
        c.kind->duration >= NANOS_PER_SEC ==> (c.expired(now) <==> c.elapsed(now)
            > c.kind->duration),
        !c.expired(now) ==> c.reading(now) == Some(split(c.shown_secs(now))),
{
}

} // verus!
