use clock_rs::character::Character;
use clock_rs::clock::counter::{Counter, CounterType, NANOS_PER_SEC};
use clock_rs::clock::mode::ClockMode;
use clock_rs::clock::time_zone::TimeZone;
use clock_rs::clock::Clock;
use clock_rs::color::Color;
use clock_rs::config::Config;
use clock_rs::error::Error;
use clock_rs::position::Position;

const S: u64 = NANOS_PER_SEC;

fn time_of_day() -> Clock {
    Clock::new(Config::default(), ClockMode::default())
}

fn stopwatch(now: u64) -> Clock {
    Clock::new(Config::default(), ClockMode::Counter(Counter::new(CounterType::Stopwatch, now)))
}

/// The rows that show `glyphs` in `color` after `padding`.
fn rows_of(glyphs: &[Character], color: &Color, padding: &str) -> String {
    let mut out = String::new();
    for row in 0..Character::ROWS {
        out.push_str(padding);
        for glyph in glyphs {
            out.push_str(&glyph.fmt(color, row));
        }
        out.push_str("\r\n");
    }
    out
}

/// The columns that `line` takes: every character outside of escape
/// sequences.
fn columns(line: &str) -> usize {
    let mut count = 0;
    let mut escaped = false;
    for c in line.chars() {
        if escaped {
            escaped = c != 'm';
        } else if c == '\x1B' {
            escaped = true;
        } else {
            count += 1;
        }
    }
    count
}

use Character::{Colon, Empty, Num};

#[test]
fn new_clock_takes_the_settings() {
    let mut config = Config::default();
    config.general.color = Color::Blue;
    config.general.interval = 999;
    config.general.blink = true;
    config.position.x = Position::Start;
    config.position.y = Position::End;
    config.date.hide_seconds = true;
    let clock = Clock::new(config, ClockMode::default());
    assert_eq!(clock.color, Color::Blue);
    assert_eq!(clock.interval, 999);
    assert!(clock.blink);
    assert!(!clock.bold);
    assert_eq!(clock.x_pos, Position::Start);
    assert_eq!(clock.y_pos, Position::End);
    assert!(!clock.use_12h);
    assert!(clock.hide_seconds);
    assert_eq!(clock.padding.top, 0);
    assert_eq!(clock.padding.clock, "");
    assert_eq!(clock.padding.text, "");
    assert!(matches!(clock.mode, ClockMode::Time { time_zone: TimeZone::Local, .. }));
}

#[test]
fn width_depends_on_the_seconds() {
    let mut clock = time_of_day();
    assert_eq!(clock.width(), 51);
    clock.hide_seconds = true;
    assert_eq!(clock.width(), 32);
    assert_eq!(Clock::WIDTH, 51);
    assert_eq!(Clock::WIDTH_NO_SECONDS, 32);
    assert_eq!(Clock::HEIGHT, 7);
    assert_eq!(Clock::SUFFIX_LEN, 5);
    assert_eq!(Clock::AM_SUFFIX, " [AM]");
    assert_eq!(Clock::PM_SUFFIX, " [PM]");
}

#[test]
fn terminal_narrower_than_the_digits_is_too_small() {
    let clock = time_of_day();
    assert!(clock.is_too_large(50, 24));
    assert!(clock.is_too_large(51, 24));
    assert!(clock.is_too_large(52, 24));
    assert!(!clock.is_too_large(53, 24));
    assert!(clock.is_too_large(0, 0));
    assert!(!clock.is_too_large(u16::MAX, u16::MAX));
}

#[test]
fn terminal_lower_than_the_clock_is_too_small() {
    let clock = time_of_day();
    assert!(clock.is_too_large(80, 7));
    assert!(clock.is_too_large(80, 8));
    assert!(!clock.is_too_large(80, 9));
}

#[test]
fn clock_without_seconds_needs_fewer_columns() {
    let mut clock = time_of_day();
    clock.hide_seconds = true;
    assert!(clock.is_too_large(33, 24));
    assert!(!clock.is_too_large(34, 24));
}

#[test]
fn layout_in_the_center() {
    let mut clock = stopwatch(0);
    clock.layout(80, 24, 27);
    assert_eq!(clock.padding.top, 9);
    assert_eq!(clock.padding.clock, " ".repeat(15));
    assert_eq!(clock.padding.text, " ".repeat(15 + 25 - 13));
}

#[test]
fn layout_at_the_start_and_at_the_end() {
    let mut clock = stopwatch(0);
    clock.x_pos = Position::Start;
    clock.y_pos = Position::End;
    clock.layout(80, 24, 10);
    assert_eq!(clock.padding.top, 16);
    assert_eq!(clock.padding.clock, " ");
    assert_eq!(clock.padding.text, " ".repeat(1 + 25 - 5));
    clock.x_pos = Position::End;
    clock.y_pos = Position::Start;
    clock.layout(80, 24, 10);
    assert_eq!(clock.padding.top, 1);
    assert_eq!(clock.padding.clock, " ".repeat(28));
    assert_eq!(clock.padding.text, " ".repeat(28 + 25 - 5));
}

#[test]
fn layout_counts_the_suffix_in() {
    let mut clock = time_of_day();
    clock.use_12h = true;
    clock.layout(80, 24, 10);
    assert_eq!(clock.padding.clock, " ".repeat(15));
    assert_eq!(clock.padding.text, " ".repeat(15 + 25 - 7));
    clock.layout(80, 24, 11);
    assert_eq!(clock.padding.text, " ".repeat(15 + 25 - 8));
}

#[test]
fn layout_of_a_counter_counts_no_suffix_in() {
    let mut clock = stopwatch(0);
    clock.use_12h = true;
    clock.layout(101, 41, 27);
    assert_eq!(clock.padding.top, 17);
    assert_eq!(clock.padding.clock, " ".repeat(25));
    assert_eq!(clock.padding.text, " ".repeat(37));
    assert_eq!(clock.update_padding(101, 41), Ok(()));
    assert_eq!(clock.padding.clock, " ".repeat(25));
    assert_eq!(clock.padding.text, " ".repeat(37));
    let mut plain = stopwatch(0);
    plain.update_padding(101, 41).unwrap();
    assert_eq!(plain.padding.text, clock.padding.text);
    let mut of_day = time_of_day();
    of_day.use_12h = true;
    of_day.layout(101, 41, 27);
    assert_eq!(of_day.padding.clock, " ".repeat(25));
    assert_eq!(of_day.padding.text, " ".repeat(34));
}

#[test]
fn text_as_drawn_is_centred_under_the_digits() {
    for x_pos in [Position::Start, Position::Center, Position::End] {
        for use_12h in [false, true] {
            for text_len in [0usize, 1, 10, 11, 27, 36, 46, 47, 51] {
                let mut clock = time_of_day();
                clock.x_pos = x_pos;
                clock.use_12h = use_12h;
                clock.layout(120, 40, text_len);
                let drawn = text_len + if use_12h { 5 } else { 0 };
                let middle_of_digits = clock.padding.clock.len() + 25;
                if drawn / 2 <= 25 {
                    assert_eq!(clock.padding.text.len() + drawn / 2, middle_of_digits);
                } else {
                    assert_eq!(clock.padding.text, clock.padding.clock);
                }
                let mut counter = stopwatch(0);
                counter.x_pos = x_pos;
                counter.use_12h = use_12h;
                counter.layout(120, 40, text_len);
                assert_eq!(counter.padding.text.len() + text_len / 2, middle_of_digits);
            }
        }
    }
}

#[test]
fn layout_of_a_text_wider_than_the_digits() {
    let mut clock = stopwatch(0);
    clock.hide_seconds = true;
    clock.layout(80, 24, 36);
    assert_eq!(clock.padding.clock, " ".repeat(24));
    assert_eq!(clock.padding.text, " ".repeat(24));
    clock.layout(80, 24, usize::MAX);
    assert_eq!(clock.padding.text, " ".repeat(24));
    clock.use_12h = true;
    clock.layout(80, 24, usize::MAX);
    assert_eq!(clock.padding.text, " ".repeat(24));
}

#[test]
fn layout_on_a_terminal_without_room() {
    let mut clock = stopwatch(0);
    clock.layout(0, 0, 27);
    assert_eq!(clock.padding.top, 0);
    assert_eq!(clock.padding.clock, "");
    assert_eq!(clock.padding.text, " ".repeat(12));
    clock.x_pos = Position::End;
    clock.y_pos = Position::End;
    clock.layout(10, 5, 27);
    assert_eq!(clock.padding.top, 0);
    assert_eq!(clock.padding.clock, "");
}

#[test]
fn update_padding_of_a_counter_uses_its_line_of_help() {
    let mut clock = stopwatch(0);
    assert_eq!(clock.update_padding(80, 24), Ok(()));
    assert_eq!(clock.padding.top, 9);
    assert_eq!(clock.padding.clock, " ".repeat(15));
    assert_eq!(clock.padding.text, " ".repeat(15 + 25 - 13));
    if let ClockMode::Counter(counter) = &mut clock.mode {
        counter.toggle_pause(S);
    }
    assert_eq!(clock.update_padding(80, 24), Ok(()));
    assert_eq!(clock.padding.text, " ".repeat(15 + 25 - 18));
}

#[test]
fn update_padding_of_the_time_of_day_uses_the_date() {
    let mut clock = time_of_day();
    assert_eq!(clock.update_padding(100, 30), Ok(()));
    assert_eq!(clock.padding.top, 12);
    assert_eq!(clock.padding.clock, " ".repeat(25));
    assert_eq!(clock.padding.text, " ".repeat(25 + 25 - 5));
}

#[test]
fn update_padding_fails_where_the_date_cannot_be_shown() {
    let mut clock = time_of_day();
    clock.update_padding(100, 30).unwrap();
    clock.mode = ClockMode::Time {
        time_zone: TimeZone::Utc,
        date_format: "%d-%m-%Y and a long text that does not fit under the digits".to_string(),
    };
    assert_eq!(
        clock.update_padding(80, 24),
        Err(Error::DateFormatTooWide { fmt_len: 61, max_len: 51 })
    );
    assert_eq!(clock.padding.top, 12);
    assert_eq!(clock.padding.clock, " ".repeat(25));
    clock.mode = ClockMode::Time { time_zone: TimeZone::Utc, date_format: "%Q".to_string() };
    assert!(matches!(clock.update_padding(80, 24), Err(Error::DateFormatInvalid { .. })));
    assert_eq!(clock.padding.clock, " ".repeat(25));
}

#[test]
fn frame_of_five_past_two_in_the_afternoon() {
    let mut clock = time_of_day();
    clock.layout(80, 24, 10);
    let frame = clock.compose((14, 5, 9), "28-10-2026");
    let digits = [Num(1), Num(4), Colon, Num(0), Num(5), Colon, Num(0), Num(9)];
    let expected = rows_of(&digits, &Color::White, &" ".repeat(15))
        + "\n"
        + &" ".repeat(15 + 25 - 5)
        + "\x1B[37m28-10-2026\n";
    assert_eq!(frame, expected);
    assert!(!frame.contains("[AM]"));
    assert!(!frame.contains("[PM]"));
}

#[test]
fn frame_has_five_rows_an_empty_line_and_the_text() {
    let mut clock = time_of_day();
    clock.layout(80, 24, 10);
    let frame = clock.compose((14, 5, 9), "28-10-2026");
    let lines: Vec<&str> = frame.split('\n').collect();
    assert_eq!(lines.len(), 8);
    for row in &lines[..5] {
        assert!(row.ends_with('\r'));
        assert_eq!(columns(row.trim_end_matches('\r')), 15 + 51 + 1);
    }
    assert_eq!(lines[5], "");
    assert_eq!(columns(lines[6]), 35 + 10);
    assert_eq!(lines[7], "");
}

#[test]
fn frame_without_seconds() {
    let mut clock = time_of_day();
    clock.hide_seconds = true;
    clock.color = Color::Rgb { r: 1, g: 2, b: 3 };
    clock.layout(40, 24, 4);
    let frame = clock.compose((9, 41, 59), "date");
    let digits = [Num(0), Num(9), Colon, Num(4), Num(1)];
    let expected = rows_of(&digits, &clock.color, "    ")
        + "\n"
        + &" ".repeat(4 + 16 - 2)
        + "\x1B[38;2;1;2;3mdate\n";
    assert_eq!(frame, expected);
    for row in frame.split("\r\n").take(5) {
        assert_eq!(columns(row), 4 + 32 + 1);
    }
}

#[test]
fn separator_blinks_in_odd_seconds() {
    let mut clock = time_of_day();
    clock.blink = true;
    let odd = clock.compose((23, 59, 59), "");
    let digits = [Num(2), Num(3), Empty, Num(5), Num(9), Empty, Num(5), Num(9)];
    assert_eq!(odd, rows_of(&digits, &Color::White, "") + "\n\x1B[37m\n");
    let even = clock.compose((23, 59, 58), "");
    let digits = [Num(2), Num(3), Colon, Num(5), Num(9), Colon, Num(5), Num(8)];
    assert_eq!(even, rows_of(&digits, &Color::White, "") + "\n\x1B[37m\n");
    clock.blink = false;
    let steady = clock.compose((23, 59, 59), "");
    let digits = [Num(2), Num(3), Colon, Num(5), Num(9), Colon, Num(5), Num(9)];
    assert_eq!(steady, rows_of(&digits, &Color::White, "") + "\n\x1B[37m\n");
}

#[test]
fn bold_text() {
    let mut clock = time_of_day();
    clock.bold = true;
    clock.color = Color::BrightRed;
    clock.layout(80, 24, 4);
    let frame = clock.compose((0, 0, 0), "text");
    let tail = format!("\n\x1B[1m{}\x1B[91mtext\n", " ".repeat(15 + 25 - 2));
    assert!(frame.ends_with(&tail));
    let digits = [Num(0), Num(0), Colon, Num(0), Num(0), Colon, Num(0), Num(0)];
    assert_eq!(frame, rows_of(&digits, &Color::BrightRed, &" ".repeat(15)) + &tail);
}

#[test]
fn twelve_hours_after_noon() {
    let mut clock = time_of_day();
    clock.use_12h = true;
    let frame = clock.compose((14, 5, 9), "date");
    let digits = [Num(0), Num(2), Colon, Num(0), Num(5), Colon, Num(0), Num(9)];
    assert_eq!(frame, rows_of(&digits, &Color::White, "") + "\n\x1B[37mdate [PM]\n");
    let frame = clock.compose((23, 0, 0), "date");
    let digits = [Num(1), Num(1), Colon, Num(0), Num(0), Colon, Num(0), Num(0)];
    assert_eq!(frame, rows_of(&digits, &Color::White, "") + "\n\x1B[37mdate [PM]\n");
}

#[test]
fn twelve_hours_at_noon() {
    let mut clock = time_of_day();
    clock.use_12h = true;
    let frame = clock.compose((12, 30, 0), "date");
    let digits = [Num(1), Num(2), Colon, Num(3), Num(0), Colon, Num(0), Num(0)];
    assert_eq!(frame, rows_of(&digits, &Color::White, "") + "\n\x1B[37mdate [PM]\n");
}

#[test]
fn twelve_hours_before_noon() {
    let mut clock = time_of_day();
    clock.use_12h = true;
    let frame = clock.compose((11, 59, 59), "date");
    let digits = [Num(1), Num(1), Colon, Num(5), Num(9), Colon, Num(5), Num(9)];
    assert_eq!(frame, rows_of(&digits, &Color::White, "") + "\n\x1B[37mdate [AM]\n");
    let frame = clock.compose((1, 0, 0), "date");
    let digits = [Num(0), Num(1), Colon, Num(0), Num(0), Colon, Num(0), Num(0)];
    assert_eq!(frame, rows_of(&digits, &Color::White, "") + "\n\x1B[37mdate [AM]\n");
}

#[test]
fn twelve_hours_at_midnight_shows_the_hour_as_it_is() {
    let mut clock = time_of_day();
    clock.use_12h = true;
    let frame = clock.compose((0, 15, 0), "date");
    let digits = [Num(0), Num(0), Colon, Num(1), Num(5), Colon, Num(0), Num(0)];
    assert_eq!(frame, rows_of(&digits, &Color::White, "") + "\n\x1B[37mdate [AM]\n");
}

#[test]
fn counter_has_no_suffix_in_twelve_hours() {
    let mut clock = stopwatch(0);
    clock.use_12h = true;
    let frame = clock.compose((14, 5, 9), "help");
    let digits = [Num(1), Num(4), Colon, Num(0), Num(5), Colon, Num(0), Num(9)];
    assert_eq!(frame, rows_of(&digits, &Color::White, "") + "\n\x1B[37mhelp\n");
}

#[test]
fn hours_of_a_hundred_and_more_show_their_last_two_digits() {
    let clock = stopwatch(0);
    let frame = clock.compose((123, 45, 6), "");
    let digits = [Num(2), Num(3), Colon, Num(4), Num(5), Colon, Num(0), Num(6)];
    assert_eq!(frame, rows_of(&digits, &Color::White, "") + "\n\x1B[37m\n");
    let frame = clock.compose((u32::MAX, u32::MAX, u32::MAX), "");
    let digits = [Num(9), Num(5), Colon, Num(9), Num(5), Colon, Num(9), Num(5)];
    assert_eq!(frame, rows_of(&digits, &Color::White, "") + "\n\x1B[37m\n");
}

#[test]
fn fmt_of_a_stopwatch_draws_what_it_shows() {
    let mut clock = stopwatch(10 * S);
    clock.update_padding(80, 24).unwrap();
    let frame = clock.fmt(10 * S + 3725 * S).unwrap().unwrap();
    assert_eq!(frame, clock.compose((1, 2, 5), "P: Toggle Pause, R: Restart"));
}

#[test]
fn fmt_of_a_timer_of_thirty_seconds() {
    let counter = Counter::new(CounterType::Timer { duration: 30 * S, kill: false }, 0);
    let mut clock = Clock::new(Config::default(), ClockMode::Counter(counter));
    clock.update_padding(80, 24).unwrap();
    let help = "P: Toggle Pause, R: Restart";
    assert_eq!(clock.fmt(0), Ok(Some(clock.compose((0, 0, 30), help))));
    assert_eq!(clock.fmt(15 * S), Ok(Some(clock.compose((0, 0, 16), help))));
    assert_eq!(clock.fmt(31 * S), Ok(Some(clock.compose((0, 0, 0), help))));
    assert_eq!(clock.fmt(3_000 * S), Ok(Some(clock.compose((0, 0, 0), help))));
}

#[test]
fn fmt_of_a_kill_timer_that_has_run_out_gives_no_frame() {
    let counter = Counter::new(CounterType::Timer { duration: 30 * S, kill: true }, 0);
    let clock = Clock::new(Config::default(), ClockMode::Counter(counter));
    assert!(matches!(clock.fmt(30 * S), Ok(Some(_))));
    assert_eq!(clock.fmt(30 * S + 1), Ok(None));
}

#[test]
fn fmt_of_the_time_of_day_draws_a_frame() {
    let mut clock = time_of_day();
    clock.update_padding(80, 24).unwrap();
    let frame = clock.fmt(0).unwrap().unwrap();
    let lines: Vec<&str> = frame.split('\n').collect();
    assert_eq!(lines.len(), 8);
    for row in &lines[..5] {
        assert_eq!(columns(row.trim_end_matches('\r')), 15 + 51 + 1);
    }
    assert_eq!(columns(lines[6]), 35 + 10);
}

#[test]
fn fmt_fails_where_the_date_cannot_be_shown() {
    let mut clock = time_of_day();
    clock.hide_seconds = true;
    clock.mode = ClockMode::Time {
        time_zone: TimeZone::Local,
        date_format: "a date format of 33 bytes, no less".to_string(),
    };
    assert_eq!(clock.fmt(0), Err(Error::DateFormatTooWide { fmt_len: 34, max_len: 32 }));
    clock.mode = ClockMode::Time { time_zone: TimeZone::Local, date_format: "%!".to_string() };
    match clock.fmt(0) {
        Err(Error::DateFormatInvalid { fmt, .. }) => assert_eq!(fmt, "%!"),
        other => panic!("unexpected {other:?}"),
    }
}

#[test]
fn clock_that_is_laid_out_stays_on_the_screen() {
    for hide_seconds in [false, true] {
        for x_pos in [Position::Start, Position::Center, Position::End] {
            for y_pos in [Position::Start, Position::Center, Position::End] {
                for (width, height) in [(34, 9), (35, 10), (53, 9), (54, 24), (80, 24), (201, 60)] {
                    let mut clock = stopwatch(0);
                    clock.hide_seconds = hide_seconds;
                    clock.x_pos = x_pos;
                    clock.y_pos = y_pos;
                    if clock.is_too_large(width, height) {
                        continue;
                    }
                    clock.layout(width, height, 27);
                    let frame = clock.compose((12, 34, 56), "P: Toggle Pause, R: Restart");
                    assert_eq!(frame.matches('\n').count(), usize::from(Clock::HEIGHT));
                    assert!(clock.padding.top + Clock::HEIGHT <= height);
                    for row in frame.split("\r\n").take(5) {
                        assert_eq!(
                            columns(row),
                            clock.padding.clock.len() + usize::from(clock.width()) + 1
                        );
                        assert!(columns(row) <= usize::from(width));
                    }
                }
            }
        }
    }
}
