//! Log levels, message formatting, and the timestamp rendering of the
//! file logger. Writing the lines out happens outside the library: the
//! formatting functions return the text to emit.

use vstd::prelude::*;
use crate::color::{use_color_spec, color_mode_from_config, color_mode_of, ColorMode};
use crate::config::Config;
use crate::strutil::{dec_digits, str_eq, u64_to_string};

verus! {

/// Verbosity level of a log message.
#[derive(Debug, Clone, Copy, PartialEq, Eq, PartialOrd, Ord, Structural)]
pub enum LogLevel {
    /// Errors only.
    Error,
    /// Warnings (the default).
    Warning,
    /// Informational messages.
    Info,
    /// Debug messages.
    Debug,
    /// The most verbose level.
    Trace,
}

/// The rank of a level: higher means more verbose.
pub open spec fn level_rank(level: LogLevel) -> int {
    match level {
        LogLevel::Error => 0,
        LogLevel::Warning => 1,
        LogLevel::Info => 2,
        LogLevel::Debug => 3,
        LogLevel::Trace => 4,
    }
}

fn level_rank_exec(level: LogLevel) -> (r: u8)
    ensures
        r == level_rank(level),
{
    match level {
        LogLevel::Error => 0,
        LogLevel::Warning => 1,
        LogLevel::Info => 2,
        LogLevel::Debug => 3,
        LogLevel::Trace => 4,
    }
}

/// The level a verbosity count selects: warnings by default, then info,
/// debug, and trace.
pub open spec fn level_from_verbose(count: u8) -> LogLevel {
    if count == 0 {
        LogLevel::Warning
    } else if count == 1 {
        LogLevel::Info
    } else if count == 2 {
        LogLevel::Debug
    } else {
        LogLevel::Trace
    }
}

impl LogLevel {
    /// The level a verbosity count selects.
    pub fn from_verbose_count(count: u8) -> (r: LogLevel)
        ensures
            r == level_from_verbose(count),
    {
        match count {
            0 => LogLevel::Warning,
            1 => LogLevel::Info,
            2 => LogLevel::Debug,
            _ => LogLevel::Trace,
        }
    }

    /// The level a configuration selects: quiet mode shows errors only,
    /// else the verbosity count decides.
    pub fn from_config(config: &Config) -> (r: LogLevel)
        ensures
            r == if config.quiet {
                LogLevel::Error
            } else {
                level_from_verbose(config.verbose)
            },
    {
        if config.quiet {
            LogLevel::Error
        } else {
            LogLevel::from_verbose_count(config.verbose)
        }
    }
}

/// The tag a level is printed under.
pub open spec fn level_tag(level: LogLevel) -> Seq<char> {
    match level {
        LogLevel::Error => "ERROR"@,
        LogLevel::Warning => "WARN"@,
        LogLevel::Info => "INFO"@,
        LogLevel::Debug => "DEBUG"@,
        LogLevel::Trace => "TRACE"@,
    }
}

/// The tag a level is rendered under in structured log lines.
pub fn level_str(level: LogLevel) -> (r: &'static str)
    ensures
        r@ == level_tag(level),
{
    match level {
        LogLevel::Error => "ERROR",
        LogLevel::Warning => "WARN",
        LogLevel::Info => "INFO",
        LogLevel::Debug => "DEBUG",
        LogLevel::Trace => "TRACE",
    }
}

/// Text wrapped in an ANSI foreground color: the escape that sets the
/// color code, the text, and the escape that restores the default.
pub open spec fn ansi_colored(code: Seq<char>, text: Seq<char>) -> Seq<char> {
    "\u{1b}["@ + code + "m"@ + text + "\u{1b}[39m"@
}

/// The ANSI foreground code of each level's tag color.
pub open spec fn level_color_code(level: LogLevel) -> Seq<char> {
    match level {
        LogLevel::Error => "31"@,
        LogLevel::Warning => "33"@,
        LogLevel::Info => "34"@,
        LogLevel::Debug => "36"@,
        LogLevel::Trace => "35"@,
    }
}

fn level_color_code_exec(level: LogLevel) -> (r: &'static str)
    ensures
        r@ == level_color_code(level),
{
    match level {
        LogLevel::Error => "31",
        LogLevel::Warning => "33",
        LogLevel::Info => "34",
        LogLevel::Debug => "36",
        LogLevel::Trace => "35",
    }
}

/// The formatted log line: with color, the colored tag, a space and the
/// message; without, the tag, a colon-space and the message.
pub open spec fn format_log_spec(
    level: LogLevel,
    message: Seq<char>,
    color_mode: ColorMode,
    auto_color: bool,
) -> Seq<char> {
    if use_color_spec(color_mode, auto_color) {
        ansi_colored(level_color_code(level), level_tag(level)) + " "@ + message
    } else {
        level_tag(level) + ": "@ + message
    }
}

/// Formats a log message under the given color mode; `auto_color` is the
/// environment's answer for the auto mode.
pub fn format_log(level: LogLevel, message: &str, color_mode: ColorMode, auto_color: bool) -> (r:
    String)
    ensures
        r@ == format_log_spec(level, message@, color_mode, auto_color),
{
    let mut s = String::new();
    if color_mode.should_use_color(auto_color) {
        s.append("\u{1b}[");
        s.append(level_color_code_exec(level));
        s.append("m");
        s.append(level_str(level));
        s.append("\u{1b}[39m");
        s.append(" ");
        s.append(message);
    } else {
        s.append(level_str(level));
        s.append(": ");
        s.append(message);
    }
    s
}

/// The logging state of one invocation: the threshold level, the color
/// mode, and the environment's answer for automatic coloring.
#[derive(Debug, Clone, Copy, PartialEq, Eq, Structural)]
pub struct Logger {
    /// Messages above this level are dropped.
    pub level: LogLevel,
    /// How log lines are colored.
    pub color_mode: ColorMode,
    /// The environment's answer for the auto color mode.
    pub auto_color: bool,
}

impl Logger {
    /// Builds the logger a configuration asks for; `auto_color` is the
    /// environment's answer for the auto color mode.
    pub fn from_config(config: &Config, auto_color: bool) -> (r: Logger)
        ensures
            r.level == if config.quiet {
                LogLevel::Error
            } else {
                level_from_verbose(config.verbose)
            },
            r.color_mode == color_mode_of(*config),
            r.auto_color == auto_color,
    {
        Logger {
            level: LogLevel::from_config(config),
            color_mode: color_mode_from_config(config),
            auto_color,
        }
    }

    /// Whether a message at `level` passes the threshold.
    pub fn should_log(&self, level: LogLevel) -> (r: bool)
        ensures
            r == (level_rank(level) <= level_rank(self.level)),
    {
        level_rank_exec(level) <= level_rank_exec(self.level)
    }

    /// The formatted line for a message at `level`.
    pub fn format_message(&self, level: LogLevel, message: &str) -> (r: String)
        ensures
            r@ == format_log_spec(level, message@, self.color_mode, self.auto_color),
    {
        format_log(level, message, self.color_mode, self.auto_color)
    }

    /// The line to emit for a message at `level`, or `None` when the
    /// threshold drops it. The caller writes the line to the error
    /// stream.
    pub fn log(&self, level: LogLevel, message: &str) -> (r: Option<String>)
        ensures
            match r {
                Some(line) => level_rank(level) <= level_rank(self.level) && line@
                    == format_log_spec(level, message@, self.color_mode, self.auto_color),
                None => level_rank(level) > level_rank(self.level),
            },
    {
        if self.should_log(level) {
            Some(self.format_message(level, message))
        } else {
            None
        }
    }

    /// The line to emit for an error message, when the threshold lets it
    /// through.
    pub fn error(&self, message: &str) -> (r: Option<String>)
        ensures
            match r {
                Some(line) => level_rank(LogLevel::Error) <= level_rank(self.level) && line@
                    == format_log_spec(LogLevel::Error, message@, self.color_mode, self.auto_color),
                None => level_rank(LogLevel::Error) > level_rank(self.level),
            },
    {
        self.log(LogLevel::Error, message)
    }

    /// The line to emit for a warning, when the threshold lets it through.
    pub fn warn(&self, message: &str) -> (r: Option<String>)
        ensures
            match r {
                Some(line) => level_rank(LogLevel::Warning) <= level_rank(self.level) && line@
                    == format_log_spec(
                    LogLevel::Warning,
                    message@,
                    self.color_mode,
                    self.auto_color,
                ),
                None => level_rank(LogLevel::Warning) > level_rank(self.level),
            },
    {
        self.log(LogLevel::Warning, message)
    }

    /// The line to emit for an informational message, when the threshold
    /// lets it through.
    pub fn info(&self, message: &str) -> (r: Option<String>)
        ensures
            match r {
                Some(line) => level_rank(LogLevel::Info) <= level_rank(self.level) && line@
                    == format_log_spec(LogLevel::Info, message@, self.color_mode, self.auto_color),
                None => level_rank(LogLevel::Info) > level_rank(self.level),
            },
    {
        self.log(LogLevel::Info, message)
    }

    /// The line to emit for a debug message, when the threshold lets it
    /// through.
    pub fn debug(&self, message: &str) -> (r: Option<String>)
        ensures
            match r {
                Some(line) => level_rank(LogLevel::Debug) <= level_rank(self.level) && line@
                    == format_log_spec(LogLevel::Debug, message@, self.color_mode, self.auto_color),
                None => level_rank(LogLevel::Debug) > level_rank(self.level),
            },
    {
        self.log(LogLevel::Debug, message)
    }

    /// The line to emit for a trace message, when the threshold lets it
    /// through.
    pub fn trace(&self, message: &str) -> (r: Option<String>)
        ensures
            match r {
                Some(line) => level_rank(LogLevel::Trace) <= level_rank(self.level) && line@
                    == format_log_spec(LogLevel::Trace, message@, self.color_mode, self.auto_color),
                None => level_rank(LogLevel::Trace) > level_rank(self.level),
            },
    {
        self.log(LogLevel::Trace, message)
    }
}

/// A year with an extra day in February.
pub open spec fn is_leap_year(y: int) -> bool {
    (y % 4 == 0 && y % 100 != 0) || y % 400 == 0
}

/// How many days the year `y` has.
pub open spec fn days_in_year(y: int) -> int {
    if is_leap_year(y) {
        366
    } else {
        365
    }
}

/// How many days month `m` of year `y` has (months counted from 1).
pub open spec fn days_in_month(y: int, m: int) -> int {
    if m == 1 { 31 }
    else if m == 2 { if is_leap_year(y) { 29 } else { 28 } }
    else if m == 3 { 31 }
    else if m == 4 { 30 }
    else if m == 5 { 31 }
    else if m == 6 { 30 }
    else if m == 7 { 31 }
    else if m == 8 { 31 }
    else if m == 9 { 30 }
    else if m == 10 { 31 }
    else if m == 11 { 30 }
    else { 31 }
}

fn is_leap_year_exec(y: u64) -> (r: bool)
    ensures
        r == is_leap_year(y as int),
{
    (y % 4 == 0 && y % 100 != 0) || y % 400 == 0
}

fn days_in_year_exec(y: u64) -> (r: u64)
    ensures
        r == days_in_year(y as int),
{
    if is_leap_year_exec(y) {
        366
    } else {
        365
    }
}

fn days_in_month_exec(y: u64, m: u64) -> (r: u64)
    ensures
        r == days_in_month(y as int, m as int),
{
    if m == 1 { 31 }
    else if m == 2 { if is_leap_year_exec(y) { 29 } else { 28 } }
    else if m == 3 { 31 }
    else if m == 4 { 30 }
    else if m == 5 { 31 }
    else if m == 6 { 30 }
    else if m == 7 { 31 }
    else if m == 8 { 31 }
    else if m == 9 { 30 }
    else if m == 10 { 31 }
    else if m == 11 { 30 }
    else { 31 }
}

/// Days from the epoch to the start of year `y`.
pub open spec fn days_before_year(y: int) -> int
    decreases y - 1970,
{
    if y <= 1970 {
        0
    } else {
        days_before_year(y - 1) + days_in_year(y - 1)
    }
}

/// Days from the start of the year to the start of month `m`.
pub open spec fn days_before_month(y: int, m: int) -> int
    decreases m,
{
    if m <= 1 {
        0
    } else {
        days_before_month(y, m - 1) + days_in_month(y, m - 1)
    }
}

proof fn lemma_year_growth(y: int)
    requires
        y >= 1970,
    ensures
        days_before_year(y) >= y - 1970,
    decreases y - 1970,
{
    if y > 1970 {
        lemma_year_growth(y - 1);
    }
}

proof fn lemma_months_sum(y: int)
    ensures
        days_before_month(y, 13) == days_in_year(y),
{
    reveal_with_fuel(days_before_month, 14);
}

/// Converts a count of days since the epoch (1970-01-01) to the civil
/// year, month and day it falls in: the returned date is a real calendar
/// date, and counting the days back to the epoch gives `days` again.
pub fn days_to_ymd(days: u64) -> (r: (i32, u32, u32))
    requires
        days <= 100_000_000,
    ensures
        1970 <= r.0,
        1 <= r.1 <= 12,
        1 <= r.2 <= days_in_month(r.0 as int, r.1 as int),
        days_before_year(r.0 as int) + days_before_month(r.0 as int, r.1 as int) + r.2 - 1
            == days,
        r.0 == year_at(1970, days as int).0,
        r.1 == month_at(r.0 as int, 1, year_at(1970, days as int).1).0,
        r.2 == month_at(r.0 as int, 1, year_at(1970, days as int).1).1 + 1,
{
    let mut y: u64 = 1970;
    let mut rem: u64 = days;
    while rem >= 366 || (rem == 365 && !is_leap_year_exec(y))
        invariant
            1970 <= y,
            days <= 100_000_000,
            rem <= days,
            days_before_year(y as int) + rem == days,
            year_at(1970, days as int) == year_at(y as int, rem as int),
        decreases rem,
    {
        let diy = days_in_year_exec(y);
        proof {
            lemma_year_growth(y as int);
        }
        rem = rem - diy;
        y = y + 1;
    }
    proof {
        lemma_year_growth(y as int);
        assert(rem < days_in_year(y as int));
    }
    let ghost rem_year = rem;
    let mut m: u64 = 1;
    while m < 12 && rem >= days_in_month_exec(y, m)
        invariant
            1 <= m <= 12,
            1970 <= y <= 1970 + 100_000_000,
            days_before_year(y as int) + days_before_month(y as int, m as int) + rem == days,
            rem_year < days_in_year(y as int),
            days_before_month(y as int, m as int) + rem == rem_year,
            month_at(y as int, 1, rem_year as int) == month_at(y as int, m as int, rem as int),
        decreases 12 - m,
    {
        let dim = days_in_month_exec(y, m);
        rem = rem - dim;
        m = m + 1;
    }
    proof {
        if m == 12 {
            lemma_months_sum(y as int);
            assert(days_before_month(y as int, 13) == days_before_month(y as int, 12)
                + days_in_month(y as int, 12));
            assert(rem < days_in_month(y as int, m as int));
        }
    }
    (y as i32, m as u32, (rem + 1) as u32)
}

/// `s` left-padded with zeros to width `w`.
pub open spec fn zero_pad(s: Seq<char>, w: int) -> Seq<char>
    decreases w - s.len(),
{
    if s.len() >= w {
        s
    } else {
        zero_pad(seq!['0'] + s, w)
    }
}

fn pad_number(n: u64, w: usize) -> (r: String)
    requires
        w <= 4,
    ensures
        r@ == zero_pad(dec_digits(n as int), w as int),
{
    proof {
        reveal_strlit("0");
        assert("0"@ =~= seq!['0']);
    }
    let mut s = u64_to_string(n);
    while s.unicode_len() < w
        invariant
            zero_pad(dec_digits(n as int), w as int) == zero_pad(s@, w as int),
        decreases w - s@.len(),
    {
        let mut t = "0".to_owned();
        t.append(s.as_str());
        proof {
            reveal_strlit("0");
            assert(t@ =~= seq!['0'] + s@);
        }
        s = t;
    }
    s
}

/// The timestamp text for a moment given as whole seconds since the epoch
/// and milliseconds within the second: date and time in UTC, with
/// millisecond precision, marked as UTC.
pub open spec fn timestamp_spec(total_secs: int, millis: int) -> Seq<char> {
    let days = total_secs / 86400;
    let secs_today = total_secs % 86400;
    let y = year_at(1970, days).0;
    let rem_year = year_at(1970, days).1;
    let m = month_at(y, 1, rem_year).0;
    let d = month_at(y, 1, rem_year).1 + 1;
    zero_pad(dec_digits(y), 4) + "-"@ + zero_pad(dec_digits(m), 2) + "-"@ + zero_pad(
        dec_digits(d),
        2,
    ) + "T"@ + zero_pad(dec_digits(secs_today / 3600), 2) + ":"@ + zero_pad(
        dec_digits((secs_today % 3600) / 60),
        2,
    ) + ":"@ + zero_pad(dec_digits(secs_today % 60), 2) + "."@ + zero_pad(dec_digits(millis), 3)
        + "Z"@
}

/// The year a day count falls in, and the remaining days within it,
/// counting from year `y` with `rem` days left.
pub open spec fn year_at(y: int, rem: int) -> (int, int)
    decreases rem,
{
    if rem >= days_in_year(y) {
        year_at(y + 1, rem - days_in_year(y))
    } else {
        (y, rem)
    }
}

/// The month a day count within a year falls in, and the remaining days
/// within it, counting from month `m` with `rem` days left.
pub open spec fn month_at(y: int, m: int, rem: int) -> (int, int)
    decreases 12 - m,
{
    if m < 12 && rem >= days_in_month(y, m) {
        month_at(y, m + 1, rem - days_in_month(y, m))
    } else {
        (m, rem)
    }
}

/// Renders the timestamp for a moment given as whole seconds since the
/// epoch and milliseconds within the second: UTC date and time with
/// millisecond precision.
pub fn iso8601_timestamp(total_secs: u64, millis: u32) -> (r: String)
    requires
        total_secs <= 253_402_300_799,
        millis < 1000,
    ensures
        r@ == timestamp_spec(total_secs as int, millis as int),
{
    let days: u64 = total_secs / 86400;
    let secs_today: u64 = total_secs % 86400;
    let hours: u64 = secs_today / 3600;
    let minutes: u64 = (secs_today % 3600) / 60;
    let seconds: u64 = secs_today % 60;
    let (y, m, d) = days_to_ymd(days);
    let mut s = pad_number(y as u64, 4);
    s.append("-");
    let p = pad_number(m as u64, 2);
    s.append(p.as_str());
    s.append("-");
    let p = pad_number(d as u64, 2);
    s.append(p.as_str());
    s.append("T");
    let p = pad_number(hours, 2);
    s.append(p.as_str());
    s.append(":");
    let p = pad_number(minutes, 2);
    s.append(p.as_str());
    s.append(":");
    let p = pad_number(seconds, 2);
    s.append(p.as_str());
    s.append(".");
    let p = pad_number(millis as u64, 3);
    s.append(p.as_str());
    s.append("Z");
    s
}

} // verus!
