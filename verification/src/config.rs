//! The settings of the display: their defaults, what a configuration file
//! may say of them, and where that file is looked for.

use vstd::prelude::*;
use vstd::string::*;

use crate::color::Color;
use crate::error::{Error, ErrorView};
use crate::position::Position;

verus! {

/// The settings of the display, as plain values.
pub struct Settings {
    pub color: Color,
    pub interval: u64,
    pub blink: bool,
    pub bold: bool,
    pub x: Position,
    pub y: Position,
    pub fmt: Seq<char>,
    pub use_12h: bool,
    pub utc: bool,
    pub hide_seconds: bool,
}

/// Settings of which any may be left open: what a configuration file or a
/// command line gives.
pub struct Overlay {
    pub color: Option<Color>,
    pub interval: Option<u64>,
    pub blink: Option<bool>,
    pub bold: Option<bool>,
    pub x: Option<Position>,
    pub y: Option<Position>,
    pub fmt: Option<Seq<char>>,
    pub use_12h: Option<bool>,
    pub utc: Option<bool>,
    pub hide_seconds: Option<bool>,
}

/// `high` where it is given, else `low`.
pub open spec fn pick<T>(high: Option<T>, low: T) -> T {
    match high {
        Some(value) => value,
        None => low,
    }
}

/// What a flag of the command line gives: set, it turns the setting on;
/// not set, it leaves the setting open.
pub open spec fn flag(set: bool) -> Option<bool> {
    if set {
        Some(true)
    } else {
        None
    }
}

/// The characters of a text that may be absent.
pub open spec fn text_of(text: Option<String>) -> Option<Seq<char>> {
    match text {
        Some(s) => Some(s@),
        None => None,
    }
}

impl Settings {
    /// The settings where nothing else is said: white, every 200 ms,
    /// centred, the date as day-month-year, and every switch off.
    pub open spec fn defaults() -> Settings {
        Settings {
            color: Color::White,
            interval: 200,
            blink: false,
            bold: false,
            x: Position::Center,
            y: Position::Center,
            fmt: "%d-%m-%Y"@,
            use_12h: false,
            utc: false,
            hide_seconds: false,
        }
    }
}

impl Overlay {
    /// Settings of which every one is left open.
    pub open spec fn nothing() -> Overlay {
        Overlay {
            color: None,
            interval: None,
            blink: None,
            bold: None,
            x: None,
            y: None,
            fmt: None,
            use_12h: None,
            utc: None,
            hide_seconds: None,
        }
    }

    /// These settings laid over `base`: each one that is given wins, each
    /// one that is left open is taken from `base`.
    pub open spec fn over(self, base: Settings) -> Settings {
        Settings {
            color: pick(self.color, base.color),
            interval: pick(self.interval, base.interval),
            blink: pick(self.blink, base.blink),
            bold: pick(self.bold, base.bold),
            x: pick(self.x, base.x),
            y: pick(self.y, base.y),
            fmt: pick(self.fmt, base.fmt),
            use_12h: pick(self.use_12h, base.use_12h),
            utc: pick(self.utc, base.utc),
            hide_seconds: pick(self.hide_seconds, base.hide_seconds),
        }
    }
}

/// Of three layers the highest that gives a setting decides it: the command
/// line where it gives one, else the file where it gives one, else the
/// default. This holds of every setting by itself.
pub proof fn law_command_line_over_file_over_defaults(cli: Overlay, file: Overlay)
    ensures
        ({
            let merged = cli.over(file.over(Settings::defaults()));
            let default = Settings::defaults();
            &&& merged.color == if cli.color is Some {
                cli.color->0
            } else if file.color is Some {
                file.color->0
            } else {
                default.color
            }
            &&& merged.interval == if cli.interval is Some {
                cli.interval->0
            } else if file.interval is Some {
                file.interval->0
            } else {
                default.interval
            }
            &&& merged.blink == if cli.blink is Some {
                cli.blink->0
            } else if file.blink is Some {
                file.blink->0
            } else {
                default.blink
            }
            &&& merged.bold == if cli.bold is Some {
                cli.bold->0
            } else if file.bold is Some {
                file.bold->0
            } else {
                default.bold
            }
            &&& merged.x == if cli.x is Some {
                cli.x->0
            } else if file.x is Some {
                file.x->0
            } else {
                default.x
            }
            &&& merged.y == if cli.y is Some {
                cli.y->0
            } else if file.y is Some {
                file.y->0
            } else {
                default.y
            }
            &&& merged.fmt == if cli.fmt is Some {
                cli.fmt->0
            } else if file.fmt is Some {
                file.fmt->0
            } else {
                default.fmt
            }
            &&& merged.use_12h == if cli.use_12h is Some {
                cli.use_12h->0
            } else if file.use_12h is Some {
                file.use_12h->0
            } else {
                default.use_12h
            }
            &&& merged.utc == if cli.utc is Some {
                cli.utc->0
            } else if file.utc is Some {
                file.utc->0
            } else {
                default.utc
            }
            &&& merged.hide_seconds == if cli.hide_seconds is Some {
                cli.hide_seconds->0
            } else if file.hide_seconds is Some {
                file.hide_seconds->0
            } else {
                default.hide_seconds
            }
        }),
{
}

/// A setting that a file gives is the setting that holds, and one that it
/// leaves open is as by default: white, every 200 ms, no blinking, no bold
/// text, centred both ways, the date as day-month-year, 24 hours, local
/// time, seconds shown. This holds of every setting by itself.
pub proof fn law_file_over_defaults(file: Overlay)
    ensures
        ({
            let merged = file.over(Settings::defaults());
            &&& merged.color == if file.color is Some {
                file.color->0
            } else {
                Color::White
            }
            &&& merged.interval == if file.interval is Some {
                file.interval->0
            } else {
                200
            }
            &&& merged.blink == (file.blink == Some(true))
            &&& merged.bold == (file.bold == Some(true))
            &&& merged.x == if file.x is Some {
                file.x->0
            } else {
                Position::Center
            }
            &&& merged.y == if file.y is Some {
                file.y->0
            } else {
                Position::Center
            }
            &&& merged.fmt == if file.fmt is Some {
                file.fmt->0
            } else {
                "%d-%m-%Y"@
            }
            &&& merged.use_12h == (file.use_12h == Some(true))
            &&& merged.utc == (file.utc == Some(true))
            &&& merged.hide_seconds == (file.hide_seconds == Some(true))
        }),
        file == Overlay::nothing() ==> file.over(Settings::defaults()) == Settings::defaults(),
{
}

/// The settings of the display.
#[derive(Clone, Debug, PartialEq, Eq)]
pub struct Config {
    pub general: GeneralConfig,
    pub position: PositionConfig,
    pub date: DateConfig,
}

/// The colour, the time between two frames in milliseconds, and the looks
/// of the separator and of the text.
#[derive(Clone, Debug, PartialEq, Eq)]
pub struct GeneralConfig {
    pub color: Color,
    pub interval: u64,
    pub blink: bool,
    pub bold: bool,
}

/// Where on the screen the clock stands.
#[derive(Clone, Debug, PartialEq, Eq)]
pub struct PositionConfig {
    pub x: Position,
    pub y: Position,
}

/// How the date and the time of day are shown.
#[derive(Clone, Debug, PartialEq, Eq)]
pub struct DateConfig {
    pub fmt: String,
    pub use_12h: bool,
    pub utc: bool,
    pub hide_seconds: bool,
}

/// What a configuration file gives: any setting may be missing.
#[derive(Clone, Debug, PartialEq, Eq)]
pub struct FileConfig {
    pub color: Option<Color>,
    pub interval: Option<u64>,
    pub blink: Option<bool>,
    pub bold: Option<bool>,
    pub horizontal: Option<Position>,
    pub vertical: Option<Position>,
    pub fmt: Option<String>,
    pub use_12h: Option<bool>,
    pub utc: Option<bool>,
    pub hide_seconds: Option<bool>,
}

/// What the environment says of the variable that names the configuration
/// file.
#[derive(Clone, Debug, PartialEq, Eq)]
pub enum PathVar {
    /// The variable is not set.
    Unset,
    /// The variable is set to something that is not Unicode, given here as
    /// closely as Unicode can.
    NotUnicode(String),
    /// The variable is set to this text.
    Given(String),
}

/// The directory of this machine for configuration files, and what is
/// known of the configuration file in it.
#[derive(Clone, Debug, PartialEq, Eq)]
pub struct ConfigDir {
    /// The directory, as closely as Unicode can give it.
    pub dir: String,
    /// The path of the configuration file in it, if that path is Unicode.
    pub file: Option<String>,
    /// Whether there is something at that path.
    pub exists: bool,
}

/// What became of the search for a configuration file and of reading it.
#[derive(Clone, Debug, PartialEq, Eq)]
pub enum Source {
    /// There is no file to read.
    Absent,
    /// The file at `path` could not be read, for the reason `err`.
    Unreadable { path: String, err: String },
    /// The file at `path` was read and could not be understood, for the
    /// reason `err`.
    Malformed { path: String, err: String },
    /// The file was read and gives these settings.
    File(FileConfig),
}

impl View for Config {
    type V = Settings;

    open spec fn view(&self) -> Settings {
        Settings {
            color: self.general.color,
            interval: self.general.interval,
            blink: self.general.blink,
            bold: self.general.bold,
            x: self.position.x,
            y: self.position.y,
            fmt: self.date.fmt@,
            use_12h: self.date.use_12h,
            utc: self.date.utc,
            hide_seconds: self.date.hide_seconds,
        }
    }
}

impl Default for GeneralConfig {
    fn default() -> (c: Self)
        ensures
            c.color == Color::White,
            c.interval == 200,
            !c.blink,
            !c.bold,
    {
        GeneralConfig { color: Color::White, interval: 200, blink: false, bold: false }
    }
}

impl Default for PositionConfig {
    fn default() -> (c: Self)
        ensures
            c.x == Position::Center,
            c.y == Position::Center,
    {
        PositionConfig { x: Position::Center, y: Position::Center }
    }
}

impl Default for DateConfig {
    fn default() -> (c: Self)
        ensures
            c.fmt@ == "%d-%m-%Y"@,
            !c.use_12h,
            !c.utc,
            !c.hide_seconds,
    {
        DateConfig {
            fmt: String::from_str("%d-%m-%Y"),
            use_12h: false,
            utc: false,
            hide_seconds: false,
        }
    }
}

impl Default for Config {
    fn default() -> (c: Self)
        ensures
            c@ == Settings::defaults(),
    {
        Config {
            general: GeneralConfig::default(),
            position: PositionConfig::default(),
            date: DateConfig::default(),
        }
    }
}

impl FileConfig {
    /// What the file gives, as plain values.
    pub open spec fn overlay(&self) -> Overlay {
        Overlay {
            color: self.color,
            interval: self.interval,
            blink: self.blink,
            bold: self.bold,
            x: self.horizontal,
            y: self.vertical,
            fmt: text_of(self.fmt),
            use_12h: self.use_12h,
            utc: self.utc,
            hide_seconds: self.hide_seconds,
        }
    }

    /// A file that gives nothing.
    pub fn empty() -> (file: Self)
        ensures
            file.overlay().over(Settings::defaults()) == Settings::defaults(),
            file.color is None,
            file.interval is None,
            file.blink is None,
            file.bold is None,
            file.horizontal is None,
            file.vertical is None,
            file.fmt is None,
            file.use_12h is None,
            file.utc is None,
            file.hide_seconds is None,
    {
        FileConfig {
            color: None,
            interval: None,
            blink: None,
            bold: None,
            horizontal: None,
            vertical: None,
            fmt: None,
            use_12h: None,
            utc: None,
            hide_seconds: None,
        }
    }
}

impl Config {
    /// The variable of the environment that names the configuration file.
    pub const PATH_VAR: &'static str = "CONF_PATH";

    /// The value of that variable which says that no file is to be read.
    pub const NO_FILE: &'static str = "None";

    /// The directory of the file inside the directory for configuration
    /// files.
    pub const DIRECTORY: &'static str = "clock-rs";

    /// The name of the file in that directory.
    pub const FILE_NAME: &'static str = "conf.toml";

    /// Which file holds the settings, if any does.
    ///
    /// The variable decides where it is set: to `None` for no file, to
    /// anything else for the file of that path. Where it is not set, the
    /// file in the directory for configuration files is taken if there is
    /// one; a path to it that is not Unicode is an error, whether there is
    /// a file or not.
    pub open spec fn chosen_file(var: PathVar, config_dir: Option<ConfigDir>) -> Result<
        Option<Seq<char>>,
        ErrorView,
    > {
        match var {
            PathVar::Given(path) => if path@ == Config::NO_FILE@ {
                Ok(None)
            } else {
                Ok(Some(path@))
            },
            PathVar::NotUnicode(path) => Err(ErrorView::NonUnicodePath(path@)),
            PathVar::Unset => match config_dir {
                None => Ok(None),
                Some(found) => match found.file {
                    None => Err(ErrorView::NonUnicodePath(found.dir@)),
                    Some(path) => if found.exists {
                        Ok(Some(path@))
                    } else {
                        Ok(None)
                    },
                },
            },
        }
    }

    /// Decides which file holds the settings: `Ok(None)` says that there is
    /// none and the defaults hold.
    pub fn locate(var: PathVar, config_dir: Option<ConfigDir>) -> (r: Result<
        Option<String>,
        Error,
    >)
        ensures
            match r {
                Ok(Some(path)) => Config::chosen_file(var, config_dir) == Ok::<
                    Option<Seq<char>>,
                    ErrorView,
                >(Some(path@)),
                Ok(None) => Config::chosen_file(var, config_dir) == Ok::<
                    Option<Seq<char>>,
                    ErrorView,
                >(None),
                Err(e) => Config::chosen_file(var, config_dir) == Err::<
                    Option<Seq<char>>,
                    ErrorView,
                >(e@),
            },
    {
        match var {
            PathVar::Given(path) => {
                if path == String::from_str(Self::NO_FILE) {
                    Ok(None)
                } else {
                    Ok(Some(path))
                }
            },
            PathVar::NotUnicode(path) => Err(Error::NonUnicodePath(path)),
            PathVar::Unset => match config_dir {
                None => Ok(None),
                Some(found) => match found.file {
                    None => Err(Error::NonUnicodePath(found.dir)),
                    Some(path) => {
                        if found.exists {
                            Ok(Some(path))
                        } else {
                            Ok(None)
                        }
                    },
                },
            },
        }
    }

    /// The settings that come of a configuration source, or the failure.
    ///
    /// Without a file the defaults hold. A file that was read gives its
    /// settings, and each one that it leaves open is as by default. A file
    /// that could not be read or understood is reported with its path and
    /// the reason.
    pub open spec fn parsed(source: Source) -> Result<Settings, ErrorView> {
        match source {
            Source::Absent => Ok(Settings::defaults()),
            Source::Unreadable { path, err } => Err(ErrorView::ReadFile { path: path@, err: err@ }),
            Source::Malformed { path, err } => Err(
                ErrorView::ParseToml { path: path@, err: err@ },
            ),
            Source::File(file) => Ok(file.overlay().over(Settings::defaults())),
        }
    }

    /// Takes what the search for the configuration file and the reading of
    /// it gave, and returns the settings: the defaults without a file, the
    /// settings of the file over the defaults with one, and the failure
    /// where the file could not be read or understood.
    pub fn parse(source: Source) -> (r: Result<Self, Error>)
        ensures
            match Config::parsed(source) {
                Ok(settings) => r matches Ok(config) && config@ == settings,
                Err(e) => r matches Err(error) && error@ == e,
            },
            r is Ok <==> source is Absent || source is File,
    {
        match source {
            Source::Absent => Ok(Config::default()),
            Source::Unreadable { path, err } => Err(Error::ReadFile { path, err }),
            Source::Malformed { path, err } => Err(Error::ParseToml { path, err }),
            Source::File(file) => Ok(Config::from_file(file)),
        }
    }

    /// The settings that a file gives: what it leaves open is as by
    /// default.
    pub fn from_file(file: FileConfig) -> (c: Self)
        ensures
            c@ == file.overlay().over(Settings::defaults()),
    {
        let default = Config::default();
        Config {
            general: GeneralConfig {
                color: match file.color {
                    Some(color) => color,
                    None => default.general.color,
                },
                interval: match file.interval {
                    Some(interval) => interval,
                    None => default.general.interval,
                },
                blink: match file.blink {
                    Some(blink) => blink,
                    None => default.general.blink,
                },
                bold: match file.bold {
                    Some(bold) => bold,
                    None => default.general.bold,
                },
            },
            position: PositionConfig {
                x: match file.horizontal {
                    Some(x) => x,
                    None => default.position.x,
                },
                y: match file.vertical {
                    Some(y) => y,
                    None => default.position.y,
                },
            },
            date: DateConfig {
                fmt: match file.fmt {
                    Some(fmt) => fmt,
                    None => default.date.fmt,
                },
                use_12h: match file.use_12h {
                    Some(use_12h) => use_12h,
                    None => default.date.use_12h,
                },
                utc: match file.utc {
                    Some(utc) => utc,
                    None => default.date.utc,
                },
                hide_seconds: match file.hide_seconds {
                    Some(hide_seconds) => hide_seconds,
                    None => default.date.hide_seconds,
                },
            },
        }
    }
}

} // verus!
