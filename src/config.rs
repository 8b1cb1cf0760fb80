//! User settings: the work interval, the break length and the language.

use vstd::prelude::*;
use crate::i18n::{resolved, Language, LanguagePreference};
use crate::text::is_white;
use crate::timefmt::Span;

verus! {

/// `v` raised to `min`, then lowered to `max`.
pub open spec fn clamped(v: int, min: int, max: int) -> int {
    let raised = if v < min { min } else { v };
    if raised > max { max } else { raised }
}

/// Limits `v` to `[min, max]`: `min` below it, `max` above it (and `max`
/// when the two bounds cross).
pub fn clamp_u64(v: u64, min: u64, max: u64) -> (r: u64)
    ensures
        r == clamped(v as int, min as int, max as int),
{
    let raised = if v < min { min } else { v };
    if raised > max { max } else { raised }
}

/// `c` with each duration clamped into its allowed range.
pub open spec fn validated(c: Config) -> Config {
    Config {
        interval_minutes: clamped(
            c.interval_minutes as int,
            Config::MIN_INTERVAL_MINUTES as int,
            Config::MAX_INTERVAL_MINUTES as int,
        ) as u64,
        break_seconds: clamped(
            c.break_seconds as int,
            Config::MIN_BREAK_SECONDS as int,
            Config::MAX_BREAK_SECONDS as int,
        ) as u64,
        language: c.language,
    }
}

/// A stored duration: the current value if positive, else the legacy one
/// if positive, else the default.
pub open spec fn stored_or_default(current: i64, legacy: i64, default: u64) -> u64 {
    let v = if current <= 0 { legacy } else { current };
    if v <= 0 { default } else { v as u64 }
}

/// The language preference a stored code stands for.
pub open spec fn language_of_code(code: i64) -> LanguagePreference {
    if code == 1 {
        LanguagePreference::En
    } else if code == 2 {
        LanguagePreference::Zh
    } else {
        LanguagePreference::Auto
    }
}

/// The stored code of a language preference.
pub open spec fn code_of_language(l: LanguagePreference) -> i64 {
    match l {
        LanguagePreference::Auto => 0,
        LanguagePreference::En => 1,
        LanguagePreference::Zh => 2,
    }
}

/// `s` without its leading white space.
pub open spec fn trim_start(s: Seq<char>) -> Seq<char>
    decreases s.len(),
{
    if s.len() > 0 && is_white(s[0]) {
        trim_start(s.drop_first())
    } else {
        s
    }
}

/// `s` without its trailing white space.
pub open spec fn trim_end(s: Seq<char>) -> Seq<char>
    decreases s.len(),
{
    if s.len() > 0 && is_white(s.last()) {
        trim_end(s.drop_last())
    } else {
        s
    }
}

/// `s` without white space at either end.
pub open spec fn trimmed(s: Seq<char>) -> Seq<char> {
    trim_end(trim_start(s))
}

pub open spec fn is_digit(c: char) -> bool {
    '0' <= c <= '9'
}

/// The value of a string of decimal digits.
pub open spec fn digits_value(s: Seq<char>) -> nat
    decreases s.len(),
{
    if s.len() == 0 {
        0
    } else {
        digits_value(s.drop_last()) * 10 + (s.last() as nat - '0' as nat) as nat
    }
}

/// The `u64` that `s` writes: an optional `+`, then one or more decimal
/// digits, of a value that fits.
pub open spec fn parsed_u64(s: Seq<char>) -> Option<u64> {
    let body = if s.len() > 0 && s[0] == '+' { s.drop_first() } else { s };
    if body.len() > 0 && (forall|i: int| 0 <= i < body.len() ==> is_digit(#[trigger] body[i]))
        && digits_value(body) <= u64::MAX {
        Some(digits_value(body) as u64)
    } else {
        None
    }
}

/// The settings that the two typed fields give, if both are positive
/// whole numbers.
pub open spec fn settings_from(
    minutes: Seq<char>,
    seconds: Seq<char>,
    language: LanguagePreference,
) -> Option<Config> {
    match (parsed_u64(trimmed(minutes)), parsed_u64(trimmed(seconds))) {
        (Some(m), Some(s)) => if m == 0 || s == 0 {
            None
        } else {
            Some(validated(Config { interval_minutes: m, break_seconds: s, language }))
        },
        _ => None,
    }
}

/// Relies on `str::trim`: removes the leading and trailing characters of
/// Unicode's `White_Space` property.
#[verifier::external_body]
fn trim(s: &str) -> (r: &str)
    ensures
        r@ == trimmed(s@),
{
    s.trim()
}

/// Relies on `u64`'s `FromStr`: an optional `+` and decimal digits only,
/// of a value that fits.
#[verifier::external_body]
fn parse_u64(s: &str) -> (r: Option<u64>)
    ensures
        r == parsed_u64(s@),
{
    s.parse::<u64>().ok()
}

/// The application settings.
#[derive(Clone, Copy, Debug, PartialEq, Eq, Structural)]
pub struct Config {
    /// Minutes of work between two breaks.
    pub interval_minutes: u64,
    /// Length of a break, in seconds.
    pub break_seconds: u64,
    pub language: LanguagePreference,
}

impl Default for Config {
    fn default() -> (r: Config)
        ensures
            r.interval_minutes == Config::DEFAULT_INTERVAL_MINUTES,
            r.break_seconds == Config::DEFAULT_BREAK_SECONDS,
            r.language == LanguagePreference::Auto,
            r.wf(),
    {
        Config {
            interval_minutes: Config::DEFAULT_INTERVAL_MINUTES,
            break_seconds: Config::DEFAULT_BREAK_SECONDS,
            language: LanguagePreference::Auto,
        }
    }
}

impl Config {
    pub const DEFAULT_INTERVAL_MINUTES: u64 = 30;
    pub const DEFAULT_BREAK_SECONDS: u64 = 120;
    pub const MIN_INTERVAL_MINUTES: u64 = 1;
    pub const MAX_INTERVAL_MINUTES: u64 = 240;
    pub const MIN_BREAK_SECONDS: u64 = 5;
    pub const MAX_BREAK_SECONDS: u64 = 3600;

    /// Both durations lie in their allowed ranges.
    pub open spec fn wf(&self) -> bool {
        &&& Config::MIN_INTERVAL_MINUTES <= self.interval_minutes <= Config::MAX_INTERVAL_MINUTES
        &&& Config::MIN_BREAK_SECONDS <= self.break_seconds <= Config::MAX_BREAK_SECONDS
    }

    /// The work phase length, in milliseconds.
    pub open spec fn work_millis(&self) -> nat {
        self.interval_minutes as nat * 60000
    }

    /// The break phase length, in milliseconds.
    pub open spec fn break_millis(&self) -> nat {
        self.break_seconds as nat * 1000
    }

    /// How far the work timer may fire late: a tenth of the phase, between
    /// one second and two minutes.
    pub open spec fn work_tolerance_millis(&self) -> nat {
        clamped((self.work_millis() / 10) as int, 1000, 120000) as nat
    }

    /// How far the break timer may fire late: a tenth of the phase, between
    /// half a second and five seconds.
    pub open spec fn break_tolerance_millis(&self) -> nat {
        clamped((self.break_millis() / 10) as int, 500, 5000) as nat
    }

    /// The settings with each duration clamped into its allowed range.
    pub fn validate(config: Config) -> (r: Config)
        ensures
            r.interval_minutes == clamped(
                config.interval_minutes as int,
                Config::MIN_INTERVAL_MINUTES as int,
                Config::MAX_INTERVAL_MINUTES as int,
            ),
            r.break_seconds == clamped(
                config.break_seconds as int,
                Config::MIN_BREAK_SECONDS as int,
                Config::MAX_BREAK_SECONDS as int,
            ),
            r.language == config.language,
            r == validated(config),
            r.wf(),
            config.wf() ==> r == config,
    {
        Config {
            interval_minutes: clamp_u64(
                config.interval_minutes,
                Config::MIN_INTERVAL_MINUTES,
                Config::MAX_INTERVAL_MINUTES,
            ),
            break_seconds: clamp_u64(
                config.break_seconds,
                Config::MIN_BREAK_SECONDS,
                Config::MAX_BREAK_SECONDS,
            ),
            language: config.language,
        }
    }

    pub fn effective_language(&self, system: Language) -> (r: Language)
        ensures
            r == resolved(self.language, system),
    {
        self.language.resolve(system)
    }

    /// The length of the work phase.
    pub fn work_interval(&self) -> (r: Span)
        requires
            self.wf(),
        ensures
            r.millis == self.work_millis(),
    {
        Span::from_secs(self.interval_minutes * 60)
    }

    /// The length of the break phase.
    pub fn break_duration(&self) -> (r: Span)
        requires
            self.wf(),
        ensures
            r.millis == self.break_millis(),
    {
        Span::from_secs(self.break_seconds)
    }

    /// The firing tolerance of the work timer.
    pub fn work_tolerance(&self) -> (r: Span)
        requires
            self.wf(),
        ensures
            r.millis == self.work_tolerance_millis(),
    {
        let tenth = self.work_interval().as_millis() / 10;
        Span::from_millis(clamp_u64(tenth, 1000, 120000))
    }

    /// The firing tolerance of the break timer.
    pub fn break_tolerance(&self) -> (r: Span)
        requires
            self.wf(),
        ensures
            r.millis == self.break_tolerance_millis(),
    {
        let tenth = self.break_duration().as_millis() / 10;
        Span::from_millis(clamp_u64(tenth, 500, 5000))
    }

    /// Settings read back from a key-value store that holds signed
    /// integers, zero for an absent key.  A duration that is not positive
    /// under the current key falls back to its legacy key, then to its
    /// default; the language codes are 1 for English and 2 for Chinese,
    /// anything else meaning automatic.
    pub fn from_stored(
        interval_raw: i64,
        legacy_interval_raw: i64,
        break_raw: i64,
        legacy_break_raw: i64,
        language_raw: i64,
    ) -> (r: Config)
        ensures
            r == validated(
                Config {
                    interval_minutes: stored_or_default(
                        interval_raw,
                        legacy_interval_raw,
                        Config::DEFAULT_INTERVAL_MINUTES,
                    ),
                    break_seconds: stored_or_default(
                        break_raw,
                        legacy_break_raw,
                        Config::DEFAULT_BREAK_SECONDS,
                    ),
                    language: language_of_code(language_raw),
                },
            ),
            r.wf(),
    {
        let interval = if interval_raw <= 0 { legacy_interval_raw } else { interval_raw };
        let brk = if break_raw <= 0 { legacy_break_raw } else { break_raw };
        let interval_minutes = if interval <= 0 {
            Config::DEFAULT_INTERVAL_MINUTES
        } else {
            interval as u64
        };
        let break_seconds = if brk <= 0 { Config::DEFAULT_BREAK_SECONDS } else { brk as u64 };
        let language = match language_raw {
            1 => LanguagePreference::En,
            2 => LanguagePreference::Zh,
            _ => LanguagePreference::Auto,
        };
        Config::validate(Config { interval_minutes, break_seconds, language })
    }

    /// The values to write to the key-value store: both durations (capped
    /// at the largest `i64`) and the language code.
    pub fn stored_values(&self) -> (r: (i64, i64, i64))
        ensures
            r.0 == (if self.interval_minutes > i64::MAX as u64 {
                i64::MAX
            } else {
                self.interval_minutes as i64
            }),
            r.1 == (if self.break_seconds > i64::MAX as u64 {
                i64::MAX
            } else {
                self.break_seconds as i64
            }),
            language_of_code(r.2) == self.language,
            r.2 == code_of_language(self.language),
    {
        let interval = if self.interval_minutes > i64::MAX as u64 {
            i64::MAX
        } else {
            self.interval_minutes as i64
        };
        let brk = if self.break_seconds > i64::MAX as u64 {
            i64::MAX
        } else {
            self.break_seconds as i64
        };
        let code: i64 = match self.language {
            LanguagePreference::Auto => 0,
            LanguagePreference::En => 1,
            LanguagePreference::Zh => 2,
        };
        (interval, brk, code)
    }

    /// The settings typed into the settings dialog: each field, with white
    /// space around it, must be a positive whole number; each is then
    /// clamped into its range.  `None` when either field is not.
    pub fn from_settings_input(minutes: &str, seconds: &str, language: LanguagePreference) -> (r:
        Option<Config>)
        ensures
            r == settings_from(minutes@, seconds@, language),
            r matches Some(c) ==> c.wf(),
    {
        let m = parse_u64(trim(minutes));
        let s = parse_u64(trim(seconds));
        match (m, s) {
            (Some(m), Some(s)) => {
                if m == 0 || s == 0 {
                    None
                } else {
                    Some(
                        Config::validate(
                            Config { interval_minutes: m, break_seconds: s, language },
                        ),
                    )
                }
            },
            _ => None,
        }
    }
}

} // verus!
