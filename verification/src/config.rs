//! The clock's configuration: colors, the countdown's default length, the
//! clock format and the mode shown at start.
//!
//! All defaults come from [`default_raw_config`], the one source shared by
//! [`ColorConfig::default`], [`AppConfig::default`] and the reading of a
//! configuration file, in which every missing field takes its default.

use vstd::prelude::*;

use crate::color::{
    ascii_lowercase, chars_of, color_from_str, color_or_white, lower_spells, named_color, Color,
};

verus! {

/// The mode shown when the clock starts.
#[derive(Debug, Clone, Copy, PartialEq, Eq, Structural)]
pub enum DefaultMode {
    Time,
    Countdown,
    Stopwatch,
}

/// The mode a name stands for, ignoring case; any other name stands for
/// the time mode. (Unicode lowercasing yields the letters of these names
/// only from their ASCII capitals, so ignoring ASCII case is the same
/// test as comparing the lowercased name.)
pub open spec fn mode_of(s: Seq<char>) -> DefaultMode {
    let l = ascii_lowercase(s);
    if l == "time"@ {
        DefaultMode::Time
    } else if l == "countdown"@ {
        DefaultMode::Countdown
    } else if l == "stopwatch"@ {
        DefaultMode::Stopwatch
    } else {
        DefaultMode::Time
    }
}

/// The mode a name stands for, ignoring case; any other name stands for
/// the time mode.
pub fn mode_from_str(s: &str) -> (m: DefaultMode)
    ensures
        m == mode_of(s@),
{
    let v = chars_of(s);
    if lower_spells(&v, "time") {
        DefaultMode::Time
    } else if lower_spells(&v, "countdown") {
        DefaultMode::Countdown
    } else if lower_spells(&v, "stopwatch") {
        DefaultMode::Stopwatch
    } else {
        DefaultMode::Time
    }
}

/// The configuration as written in a file: colors by name, every field
/// present (missing fields take their defaults when the file is read).
pub struct RawConfig {
    pub time_color: String,
    pub date_color: String,
    pub countdown_running_color: String,
    pub countdown_idle_color: String,
    pub stopwatch_running_color: String,
    pub stopwatch_idle_color: String,
    pub menu_color: String,
    pub alert_color: String,
    pub stopwatch_lap_color: String,
    pub countdown_default_seconds: u64,
    pub use_24h_format: bool,
    pub default_mode: Option<String>,
}

/// The defaults of every field: the one source of all defaults.
pub fn default_raw_config() -> (r: RawConfig)
    ensures
        r.time_color@ == "White"@,
        r.date_color@ == "Yellow"@,
        r.countdown_running_color@ == "LightBlue"@,
        r.countdown_idle_color@ == "White"@,
        r.stopwatch_running_color@ == "Magenta"@,
        r.stopwatch_idle_color@ == "White"@,
        r.menu_color@ == "DarkGray"@,
        r.alert_color@ == "Red"@,
        r.stopwatch_lap_color@ == "Blue"@,
        r.countdown_default_seconds == 25 * 60,
        r.use_24h_format == false,
        r.default_mode is None,
{
    RawConfig {
        time_color: String::from_str("White"),
        date_color: String::from_str("Yellow"),
        countdown_running_color: String::from_str("LightBlue"),
        countdown_idle_color: String::from_str("White"),
        stopwatch_running_color: String::from_str("Magenta"),
        stopwatch_idle_color: String::from_str("White"),
        menu_color: String::from_str("DarkGray"),
        alert_color: String::from_str("Red"),
        stopwatch_lap_color: String::from_str("Blue"),
        countdown_default_seconds: 25 * 60,
        use_24h_format: false,
        default_mode: None,
    }
}

/// The color theme.
#[derive(Debug, Clone, Copy, PartialEq, Eq, Structural)]
pub struct ColorConfig {
    pub time_color: Color,
    pub date_color: Color,
    pub countdown_running_color: Color,
    pub countdown_idle_color: Color,
    pub stopwatch_running_color: Color,
    pub stopwatch_idle_color: Color,
    pub menu_color: Color,
    pub alert_color: Color,
    pub stopwatch_lap_color: Color,
}

/// The color theme of a raw configuration: each color parsed, white where
/// it cannot be.
pub open spec fn colors_of(r: RawConfig) -> ColorConfig {
    ColorConfig {
        time_color: color_or_white(r.time_color@),
        date_color: color_or_white(r.date_color@),
        countdown_running_color: color_or_white(r.countdown_running_color@),
        countdown_idle_color: color_or_white(r.countdown_idle_color@),
        stopwatch_running_color: color_or_white(r.stopwatch_running_color@),
        stopwatch_idle_color: color_or_white(r.stopwatch_idle_color@),
        menu_color: color_or_white(r.menu_color@),
        alert_color: color_or_white(r.alert_color@),
        stopwatch_lap_color: color_or_white(r.stopwatch_lap_color@),
    }
}

/// The default theme: white time, yellow date, light blue running countdown,
/// magenta running stopwatch, dark gray menu, red alert, blue lap, and
/// white for the idle states.
pub open spec fn default_colors() -> ColorConfig {
    ColorConfig {
        time_color: Color::White,
        date_color: Color::Yellow,
        countdown_running_color: Color::LightBlue,
        countdown_idle_color: Color::White,
        stopwatch_running_color: Color::Magenta,
        stopwatch_idle_color: Color::White,
        menu_color: Color::DarkGray,
        alert_color: Color::Red,
        stopwatch_lap_color: Color::Blue,
    }
}

impl ColorConfig {
    /// The theme of a raw configuration: each color parsed, white where it
    /// cannot be.
    pub fn from_raw(r: &RawConfig) -> (c: ColorConfig)
        ensures
            c == colors_of(*r),
    {
        ColorConfig {
            time_color: color_from_str(r.time_color.as_str()),
            date_color: color_from_str(r.date_color.as_str()),
            countdown_running_color: color_from_str(r.countdown_running_color.as_str()),
            countdown_idle_color: color_from_str(r.countdown_idle_color.as_str()),
            stopwatch_running_color: color_from_str(r.stopwatch_running_color.as_str()),
            stopwatch_idle_color: color_from_str(r.stopwatch_idle_color.as_str()),
            menu_color: color_from_str(r.menu_color.as_str()),
            alert_color: color_from_str(r.alert_color.as_str()),
            stopwatch_lap_color: color_from_str(r.stopwatch_lap_color.as_str()),
        }
    }
}

/// The default color names read as the default theme.
pub proof fn lemma_default_color_names()
    ensures
        color_or_white("White"@) == Color::White,
        color_or_white("Yellow"@) == Color::Yellow,
        color_or_white("LightBlue"@) == Color::LightBlue,
        color_or_white("Magenta"@) == Color::Magenta,
        color_or_white("DarkGray"@) == Color::DarkGray,
        color_or_white("Red"@) == Color::Red,
        color_or_white("Blue"@) == Color::Blue,
{
    reveal_strlit("White");
    reveal_strlit("Yellow");
    reveal_strlit("LightBlue");
    reveal_strlit("Magenta");
    reveal_strlit("DarkGray");
    reveal_strlit("Red");
    reveal_strlit("Blue");
    reveal_strlit("white");
    reveal_strlit("black");
    reveal_strlit("red");
    reveal_strlit("green");
    reveal_strlit("yellow");
    reveal_strlit("blue");
    reveal_strlit("magenta");
    reveal_strlit("pink");
    reveal_strlit("cyan");
    reveal_strlit("gray");
    reveal_strlit("grey");
    reveal_strlit("dark_gray");
    reveal_strlit("darkgrey");
    reveal_strlit("darkgray");
    reveal_strlit("light_red");
    reveal_strlit("lightred");
    reveal_strlit("light_green");
    reveal_strlit("lightgreen");
    reveal_strlit("light_yellow");
    reveal_strlit("lightyellow");
    reveal_strlit("light_blue");
    reveal_strlit("lightblue");
    assert(ascii_lowercase("White"@) =~= "white"@);
    assert(ascii_lowercase("Yellow"@) =~= "yellow"@);
    assert(ascii_lowercase("LightBlue"@) =~= "lightblue"@);
    assert("lightblue"@[5] != "light_red"@[5] && "lightblue"@[0] != "darkgrey"@[0]
        && "lightblue"@[0] != "darkgray"@[0]);
    assert(named_color("LightBlue"@) == Some(Color::LightBlue));
    assert(ascii_lowercase("Magenta"@) =~= "magenta"@);
    assert(ascii_lowercase("DarkGray"@) =~= "darkgray"@);
    assert(ascii_lowercase("Red"@) =~= "red"@);
    assert(ascii_lowercase("Blue"@) =~= "blue"@);
}

impl Default for ColorConfig {
    /// The theme of the default raw configuration.
    fn default() -> (c: ColorConfig)
        ensures
            c == default_colors(),
    {
        proof {
            lemma_default_color_names();
        }
        ColorConfig::from_raw(&default_raw_config())
    }
}

/// The whole configuration.
#[derive(Debug, Clone, Copy, PartialEq, Eq, Structural)]
pub struct AppConfig {
    pub colors: ColorConfig,
    pub countdown_default_seconds: u64,
    pub use_24h_format: bool,
    pub default_mode: DefaultMode,
}

/// The mode a raw configuration names, the time mode where it names none.
pub open spec fn raw_mode(m: Option<String>) -> DefaultMode {
    match m {
        Some(s) => mode_of(s@),
        None => DefaultMode::Time,
    }
}

impl AppConfig {
    /// The configuration a raw configuration describes.
    pub fn from_raw(r: &RawConfig) -> (c: AppConfig)
        ensures
            c.colors == colors_of(*r),
            c.countdown_default_seconds == r.countdown_default_seconds,
            c.use_24h_format == r.use_24h_format,
            c.default_mode == raw_mode(r.default_mode),
    {
        let default_mode = match &r.default_mode {
            Some(s) => mode_from_str(s.as_str()),
            None => DefaultMode::Time,
        };
        AppConfig {
            colors: ColorConfig::from_raw(r),
            countdown_default_seconds: r.countdown_default_seconds,
            use_24h_format: r.use_24h_format,
            default_mode,
        }
    }
}

impl Default for AppConfig {
    /// The configuration of the default raw configuration: the default
    /// theme, a countdown of 25 minutes, the 12-hour clock, the time mode.
    fn default() -> (c: AppConfig)
        ensures
            c.colors == default_colors(),
            c.countdown_default_seconds == 25 * 60,
            c.use_24h_format == false,
            c.default_mode == DefaultMode::Time,
    {
        proof {
            lemma_default_color_names();
        }
        AppConfig::from_raw(&default_raw_config())
    }
}

} // verus!
