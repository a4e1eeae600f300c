use clock_rs::cli::{Args, Mode, TimerArgs};
use clock_rs::color::Color;
use clock_rs::config::{
    Config, ConfigDir, DateConfig, FileConfig, GeneralConfig, PathVar, PositionConfig, Source,
};
use clock_rs::error::Error;
use clock_rs::position::Position;

fn no_args() -> Args {
    Args {
        mode: None,
        color: None,
        x_pos: None,
        y_pos: None,
        fmt: None,
        use_12h: false,
        interval: None,
        utc: false,
        hide_seconds: false,
        blink: false,
        bold: false,
    }
}

fn full_file() -> FileConfig {
    FileConfig {
        color: Some(Color::Red),
        interval: Some(500),
        blink: Some(true),
        bold: Some(true),
        horizontal: Some(Position::Start),
        vertical: Some(Position::End),
        fmt: Some("%A".to_string()),
        use_12h: Some(true),
        utc: Some(true),
        hide_seconds: Some(true),
    }
}

#[test]
fn default_config() {
    let config = Config::default();
    assert_eq!(config.general.color, Color::White);
    assert_eq!(config.general.interval, 200);
    assert!(!config.general.blink);
    assert!(!config.general.bold);
    assert_eq!(config.position.x, Position::Center);
    assert_eq!(config.position.y, Position::Center);
    assert_eq!(config.date.fmt, "%d-%m-%Y");
    assert!(!config.date.use_12h);
    assert!(!config.date.utc);
    assert!(!config.date.hide_seconds);
}

#[test]
fn default_sections() {
    assert_eq!(
        GeneralConfig::default(),
        GeneralConfig { color: Color::White, interval: 200, blink: false, bold: false }
    );
    assert_eq!(
        PositionConfig::default(),
        PositionConfig { x: Position::Center, y: Position::Center }
    );
    assert_eq!(
        DateConfig::default(),
        DateConfig {
            fmt: "%d-%m-%Y".to_string(),
            use_12h: false,
            utc: false,
            hide_seconds: false
        }
    );
}

#[test]
fn empty_file_gives_the_defaults() {
    assert_eq!(Config::from_file(FileConfig::empty()), Config::default());
}

#[test]
fn file_wins_over_defaults() {
    let config = Config::from_file(full_file());
    assert_eq!(
        config,
        Config {
            general: GeneralConfig { color: Color::Red, interval: 500, blink: true, bold: true },
            position: PositionConfig { x: Position::Start, y: Position::End },
            date: DateConfig {
                fmt: "%A".to_string(),
                use_12h: true,
                utc: true,
                hide_seconds: true
            },
        }
    );
}

#[test]
fn file_may_give_one_setting_alone() {
    let mut file = FileConfig::empty();
    file.interval = Some(1000);
    let mut expected = Config::default();
    expected.general.interval = 1000;
    assert_eq!(Config::from_file(file), expected);

    let mut file = FileConfig::empty();
    file.fmt = Some("%Y".to_string());
    let mut expected = Config::default();
    expected.date.fmt = "%Y".to_string();
    assert_eq!(Config::from_file(file), expected);

    let mut file = FileConfig::empty();
    file.blink = Some(false);
    file.vertical = Some(Position::Start);
    let mut expected = Config::default();
    expected.position.y = Position::Start;
    assert_eq!(Config::from_file(file), expected);
}

#[test]
fn command_line_without_options_changes_nothing() {
    let mut config = Config::from_file(full_file());
    no_args().overwrite(&mut config);
    assert_eq!(config, Config::from_file(full_file()));
    let mut config = Config::default();
    no_args().overwrite(&mut config);
    assert_eq!(config, Config::default());
}

#[test]
fn command_line_wins_over_file_and_defaults() {
    let args = Args {
        mode: Some(Mode::Stopwatch),
        color: Some(Color::Rgb { r: 1, g: 2, b: 3 }),
        x_pos: Some(Position::End),
        y_pos: Some(Position::Start),
        fmt: Some("%H".to_string()),
        use_12h: true,
        interval: Some(50),
        utc: true,
        hide_seconds: true,
        blink: true,
        bold: true,
    };
    let expected = Config {
        general: GeneralConfig {
            color: Color::Rgb { r: 1, g: 2, b: 3 },
            interval: 50,
            blink: true,
            bold: true,
        },
        position: PositionConfig { x: Position::End, y: Position::Start },
        date: DateConfig { fmt: "%H".to_string(), use_12h: true, utc: true, hide_seconds: true },
    };
    let mut over_defaults = Config::default();
    args.clone().overwrite(&mut over_defaults);
    assert_eq!(over_defaults, expected);
    let mut over_file = Config::from_file(full_file());
    args.overwrite(&mut over_file);
    assert_eq!(over_file, expected);
}

#[test]
fn each_setting_is_merged_by_itself() {
    let mut file = FileConfig::empty();
    file.color = Some(Color::Blue);
    file.bold = Some(true);
    file.fmt = Some("%A".to_string());
    let mut args = no_args();
    args.interval = Some(75);
    args.color = Some(Color::Cyan);
    args.utc = true;
    let mut config = Config::from_file(file);
    args.overwrite(&mut config);
    assert_eq!(config.general.color, Color::Cyan);
    assert_eq!(config.general.interval, 75);
    assert!(!config.general.blink);
    assert!(config.general.bold);
    assert_eq!(config.position.x, Position::Center);
    assert_eq!(config.position.y, Position::Center);
    assert_eq!(config.date.fmt, "%A");
    assert!(!config.date.use_12h);
    assert!(config.date.utc);
    assert!(!config.date.hide_seconds);
}

#[test]
fn switch_of_the_command_line_cannot_turn_a_setting_off() {
    let mut file = FileConfig::empty();
    file.blink = Some(true);
    file.use_12h = Some(true);
    let mut config = Config::from_file(file);
    no_args().overwrite(&mut config);
    assert!(config.general.blink);
    assert!(config.date.use_12h);
}

#[test]
fn mode_of_the_command_line_is_no_setting() {
    let mut args = no_args();
    args.mode = Some(Mode::Timer(TimerArgs {
        seconds: Some(5),
        minutes: None,
        hours: None,
        kill: true,
    }));
    let mut config = Config::default();
    args.overwrite(&mut config);
    assert_eq!(config, Config::default());
}

fn found() -> Option<ConfigDir> {
    Some(ConfigDir {
        dir: "/home/u/.config".to_string(),
        file: Some("/home/u/.config/clock-rs/conf.toml".to_string()),
        exists: true,
    })
}

fn missing() -> Option<ConfigDir> {
    Some(ConfigDir {
        dir: "/home/u/.config".to_string(),
        file: Some("/home/u/.config/clock-rs/conf.toml".to_string()),
        exists: false,
    })
}

fn not_unicode(exists: bool) -> Option<ConfigDir> {
    Some(ConfigDir { dir: "/home/\u{FFFD}/.config".to_string(), file: None, exists })
}

#[test]
fn path_named_by_the_variable_is_taken() {
    for config_dir in [None, found(), missing(), not_unicode(true)] {
        assert_eq!(
            Config::locate(PathVar::Given("/etc/clock.toml".to_string()), config_dir.clone()),
            Ok(Some("/etc/clock.toml".to_string()))
        );
        assert_eq!(
            Config::locate(PathVar::Given("".to_string()), config_dir),
            Ok(Some("".to_string()))
        );
    }
}

#[test]
fn variable_set_to_none_means_no_file() {
    for config_dir in [None, found(), missing(), not_unicode(false)] {
        assert_eq!(Config::locate(PathVar::Given("None".to_string()), config_dir), Ok(None));
    }
    assert_eq!(
        Config::locate(PathVar::Given("none".to_string()), missing()),
        Ok(Some("none".to_string()))
    );
    assert_eq!(
        Config::locate(PathVar::Given("None ".to_string()), found()),
        Ok(Some("None ".to_string()))
    );
}

#[test]
fn variable_that_is_not_unicode_is_an_error() {
    for config_dir in [None, found(), missing(), not_unicode(true)] {
        assert_eq!(
            Config::locate(PathVar::NotUnicode("/tmp/\u{FFFD}.toml".to_string()), config_dir),
            Err(Error::NonUnicodePath("/tmp/\u{FFFD}.toml".to_string()))
        );
    }
}

#[test]
fn without_the_variable_the_file_in_the_directory_decides() {
    assert_eq!(Config::locate(PathVar::Unset, None), Ok(None));
    assert_eq!(Config::locate(PathVar::Unset, missing()), Ok(None));
    assert_eq!(
        Config::locate(PathVar::Unset, found()),
        Ok(Some("/home/u/.config/clock-rs/conf.toml".to_string()))
    );
}

#[test]
fn path_in_the_directory_that_is_not_unicode_is_an_error() {
    for exists in [false, true] {
        assert_eq!(
            Config::locate(PathVar::Unset, not_unicode(exists)),
            Err(Error::NonUnicodePath("/home/\u{FFFD}/.config".to_string()))
        );
    }
}

#[test]
fn names_of_the_configuration() {
    assert_eq!(Config::PATH_VAR, "CONF_PATH");
    assert_eq!(Config::NO_FILE, "None");
    assert_eq!(Config::DIRECTORY, "clock-rs");
    assert_eq!(Config::FILE_NAME, "conf.toml");
}

#[test]
fn without_a_source_the_defaults_hold() {
    assert_eq!(Config::parse(Source::Absent), Ok(Config::default()));
}

#[test]
fn source_that_gives_nothing_gives_the_defaults() {
    assert_eq!(Config::parse(Source::File(FileConfig::empty())), Ok(Config::default()));
}

#[test]
fn source_gives_its_settings_over_the_defaults() {
    assert_eq!(Config::parse(Source::File(full_file())), Ok(Config::from_file(full_file())));
    let mut file = FileConfig::empty();
    file.color = Some(Color::Magenta);
    file.utc = Some(true);
    file.vertical = Some(Position::End);
    let config = Config::parse(Source::File(file)).unwrap();
    assert_eq!(
        config,
        Config {
            general: GeneralConfig {
                color: Color::Magenta,
                interval: 200,
                blink: false,
                bold: false
            },
            position: PositionConfig { x: Position::Center, y: Position::End },
            date: DateConfig {
                fmt: "%d-%m-%Y".to_string(),
                use_12h: false,
                utc: true,
                hide_seconds: false
            },
        }
    );
}

#[test]
fn each_setting_of_a_source_is_taken_by_itself() {
    let defaults = Config::default();
    let full = Config::from_file(full_file());
    for given in 0..10 {
        let mut file = FileConfig::empty();
        let mut expected = defaults.clone();
        match given {
            0 => {
                file.color = full_file().color;
                expected.general.color = full.general.color;
            }
            1 => {
                file.interval = full_file().interval;
                expected.general.interval = full.general.interval;
            }
            2 => {
                file.blink = full_file().blink;
                expected.general.blink = full.general.blink;
            }
            3 => {
                file.bold = full_file().bold;
                expected.general.bold = full.general.bold;
            }
            4 => {
                file.horizontal = full_file().horizontal;
                expected.position.x = full.position.x;
            }
            5 => {
                file.vertical = full_file().vertical;
                expected.position.y = full.position.y;
            }
            6 => {
                file.fmt = full_file().fmt;
                expected.date.fmt = full.date.fmt.clone();
            }
            7 => {
                file.use_12h = full_file().use_12h;
                expected.date.use_12h = full.date.use_12h;
            }
            8 => {
                file.utc = full_file().utc;
                expected.date.utc = full.date.utc;
            }
            _ => {
                file.hide_seconds = full_file().hide_seconds;
                expected.date.hide_seconds = full.date.hide_seconds;
            }
        }
        assert_eq!(Config::parse(Source::File(file)), Ok(expected));
    }
}

#[test]
fn source_that_could_not_be_read_is_an_error() {
    assert_eq!(
        Config::parse(Source::Unreadable {
            path: "/etc/clock.toml".to_string(),
            err: "permission denied".to_string()
        }),
        Err(Error::ReadFile {
            path: "/etc/clock.toml".to_string(),
            err: "permission denied".to_string()
        })
    );
}

#[test]
fn source_that_could_not_be_understood_is_an_error() {
    assert_eq!(
        Config::parse(Source::Malformed {
            path: "conf.toml".to_string(),
            err: "expected `=`".to_string()
        }),
        Err(Error::ParseToml { path: "conf.toml".to_string(), err: "expected `=`".to_string() })
    );
}
