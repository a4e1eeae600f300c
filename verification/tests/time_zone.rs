use chrono::{Datelike, Utc};
use clock_rs::clock::counter::{Counter, CounterType, NANOS_PER_SEC};
use clock_rs::clock::mode::ClockMode;
use clock_rs::clock::time_zone::TimeZone;
use clock_rs::error::Error;

#[test]
fn zone_from_switch() {
    assert_eq!(TimeZone::from_utc(true), TimeZone::Utc);
    assert_eq!(TimeZone::from_utc(false), TimeZone::Local);
}

#[test]
fn time_of_day_is_within_bounds() {
    for zone in [TimeZone::Utc, TimeZone::Local] {
        let (hour, minute, second) = zone.get_time();
        assert!(hour < 24);
        assert!(minute < 60);
        assert!(second < 60);
    }
}

#[test]
fn date_is_formatted_by_the_format() {
    let year = TimeZone::Utc.text("%Y", 51).unwrap();
    assert_ne!(year, "%Y");
    assert_eq!(year.len(), 4);
    let now = Utc::now().year();
    let read: i32 = year.parse().unwrap();
    assert!(read == now || read + 1 == now);
    for zone in [TimeZone::Utc, TimeZone::Local] {
        let date = zone.text("%d-%m-%Y", 51).unwrap();
        let parts: Vec<&str> = date.split('-').collect();
        assert_eq!(parts.len(), 3);
        assert_eq!((parts[0].len(), parts[1].len(), parts[2].len()), (2, 2, 4));
        assert!(date.bytes().all(|b| b == b'-' || b.is_ascii_digit()));
    }
}

#[test]
fn literal_text_in_the_format_is_kept() {
    assert_eq!(TimeZone::Utc.text("today", 51), Ok("today".to_string()));
    assert_eq!(TimeZone::Local.text("", 0), Ok(String::new()));
    assert_eq!(TimeZone::Local.text("100%%", 4), Ok("100%".to_string()));
}

#[test]
fn format_that_is_not_known_is_rejected() {
    for zone in [TimeZone::Utc, TimeZone::Local] {
        match zone.text("%Q", 51) {
            Err(Error::DateFormatInvalid { fmt, err }) => {
                assert_eq!(fmt, "%Q");
                assert!(!err.is_empty());
            }
            other => panic!("unexpected {other:?}"),
        }
    }
}

#[test]
fn date_that_is_too_wide_is_rejected() {
    for zone in [TimeZone::Utc, TimeZone::Local] {
        assert_eq!(
            zone.text("%d-%m-%Y", 9),
            Err(Error::DateFormatTooWide { fmt_len: 10, max_len: 9 })
        );
        assert!(zone.text("%d-%m-%Y", 10).is_ok());
    }
    assert_eq!(
        TimeZone::Utc.text("été", 4),
        Err(Error::DateFormatTooWide { fmt_len: 5, max_len: 4 })
    );
    assert_eq!(TimeZone::Utc.text("été", 5), Ok("été".to_string()));
}

#[test]
fn fit_passes_a_date_that_fits() {
    assert_eq!(
        TimeZone::fit(Ok("28-10-2026".to_string()), "%d-%m-%Y", 32),
        Ok("28-10-2026".to_string())
    );
    assert_eq!(
        TimeZone::fit(Ok("28-10-2026".to_string()), "%d-%m-%Y", 10),
        Ok("28-10-2026".to_string())
    );
    assert_eq!(TimeZone::fit(Ok(String::new()), "", 0), Ok(String::new()));
}

#[test]
fn fit_rejects_a_date_that_is_too_wide() {
    assert_eq!(
        TimeZone::fit(
            Ok("Wednesday, 28 October 2026, 14:05:09 o'clock in the afternoon".to_string()),
            "%c",
            51
        ),
        Err(Error::DateFormatTooWide { fmt_len: 61, max_len: 51 })
    );
    assert_eq!(
        TimeZone::fit(Ok("x".to_string()), "x", 0),
        Err(Error::DateFormatTooWide { fmt_len: 1, max_len: 0 })
    );
    assert_eq!(
        TimeZone::fit(Ok("日本".to_string()), "日本", 5),
        Err(Error::DateFormatTooWide { fmt_len: 6, max_len: 5 })
    );
}

#[test]
fn fit_reports_a_rejected_format() {
    assert_eq!(
        TimeZone::fit(Err("bad item".to_string()), "%Q", 51),
        Err(Error::DateFormatInvalid { fmt: "%Q".to_string(), err: "bad item".to_string() })
    );
}

#[test]
fn default_mode_is_the_local_time_of_day() {
    match ClockMode::default() {
        ClockMode::Time { time_zone, date_format } => {
            assert_eq!(time_zone, TimeZone::Local);
            assert_eq!(date_format, "%d-%m-%Y");
        }
        other => panic!("unexpected {other:?}"),
    }
}

#[test]
fn mode_of_a_counter_reads_the_counter() {
    let mode = ClockMode::Counter(Counter::new(
        CounterType::Timer { duration: 90 * NANOS_PER_SEC, kill: true },
        0,
    ));
    assert_eq!(mode.get_time(0), Some((0, 1, 30)));
    assert_eq!(mode.get_time(11 * NANOS_PER_SEC), Some((0, 1, 20)));
    assert_eq!(mode.get_time(91 * NANOS_PER_SEC), None);
    assert_eq!(mode.text(0), Ok("P: Toggle Pause, R: Restart".to_string()));
    assert_eq!(mode.text(51), Ok("P: Toggle Pause, R: Restart".to_string()));
}

#[test]
fn mode_of_a_paused_counter_says_so() {
    let mut counter = Counter::new(CounterType::Stopwatch, 0);
    counter.toggle_pause(5);
    let mode = ClockMode::Counter(counter);
    assert_eq!(mode.text(32), Ok("P: Toggle Pause, R: Restart [Paused]".to_string()));
}

#[test]
fn mode_of_the_time_of_day_reads_the_clock() {
    let mode = ClockMode::Time { time_zone: TimeZone::Utc, date_format: "%d-%m-%Y".to_string() };
    let (hour, minute, second) = mode.get_time(0).unwrap();
    assert!(hour < 24 && minute < 60 && second < 60);
    assert_eq!(mode.text(51).unwrap().len(), 10);
    assert_eq!(mode.text(9), Err(Error::DateFormatTooWide { fmt_len: 10, max_len: 9 }));
    let bad = ClockMode::Time { time_zone: TimeZone::Local, date_format: "%Q".to_string() };
    assert!(matches!(bad.text(51), Err(Error::DateFormatInvalid { .. })));
}
