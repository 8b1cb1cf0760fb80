//! Interface languages and the user's language preference.

use vstd::prelude::*;
use crate::text::{ascii_lower, is_white, lower_ascii, white};

verus! {

/// A language the interface is available in.
#[derive(Clone, Copy, Debug, PartialEq, Eq, Structural)]
pub enum Language {
    /// English
    En,
    /// Chinese (Simplified)
    Zh,
}

/// The language the user asked for; `Auto` follows the system.
#[derive(Clone, Copy, Debug, PartialEq, Eq, Structural)]
pub enum LanguagePreference {
    Auto,
    En,
    Zh,
}

impl Default for LanguagePreference {
    fn default() -> (r: LanguagePreference)
        ensures
            r == LanguagePreference::Auto,
    {
        LanguagePreference::Auto
    }
}

/// The language a preference stands for, given the system's language.
pub open spec fn resolved(pref: LanguagePreference, system: Language) -> Language {
    match pref {
        LanguagePreference::Auto => system,
        LanguagePreference::En => Language::En,
        LanguagePreference::Zh => Language::Zh,
    }
}

impl LanguagePreference {
    /// The language to display: the forced one, or `system` under `Auto`.
    pub fn resolve(self, system: Language) -> (r: Language)
        ensures
            r == resolved(self, system),
    {
        match self {
            LanguagePreference::Auto => system,
            LanguagePreference::En => Language::En,
            LanguagePreference::Zh => Language::Zh,
        }
    }
}

/// Nothing but white space.
pub open spec fn blank(s: Seq<char>) -> bool {
    forall|i: int| 0 <= i < s.len() ==> is_white(#[trigger] s[i])
}

/// `s` holds `a` followed by `b`, ignoring ASCII case.
pub open spec fn has_pair(s: Seq<char>, a: char, b: char) -> bool {
    exists|i: int| 0 <= i < s.len() - 1 && ascii_lower(#[trigger] s[i]) == a && ascii_lower(s[i + 1]) == b
}

/// The language a locale tag such as `zh-Hans` or `en_US.UTF-8` names:
/// Chinese if it mentions `zh`, else English if it mentions `en`, ignoring
/// ASCII case; none for a blank tag or any other.
pub open spec fn tag_language(s: Seq<char>) -> Option<Language> {
    if blank(s) {
        None
    } else if has_pair(s, 'z', 'h') {
        Some(Language::Zh)
    } else if has_pair(s, 'e', 'n') {
        Some(Language::En)
    } else {
        None
    }
}

fn is_blank(s: &str) -> (r: bool)
    ensures
        r == blank(s@),
{
    let n = s.unicode_len();
    let mut i: usize = 0;
    while i < n
        invariant
            n == s@.len(),
            i <= n,
            forall|k: int| 0 <= k < i ==> is_white(#[trigger] s@[k]),
        decreases n - i,
    {
        if !white(s.get_char(i)) {
            return false;
        }
        i = i + 1;
    }
    true
}

fn contains_pair(s: &str, a: char, b: char) -> (r: bool)
    ensures
        r == has_pair(s@, a, b),
{
    let n = s.unicode_len();
    if n < 2 {
        return false;
    }
    let mut i: usize = 0;
    while i < n - 1
        invariant
            n == s@.len(),
            n >= 2,
            i <= n - 1,
            forall|k: int|
                0 <= k < i ==> !(ascii_lower(#[trigger] s@[k]) == a && ascii_lower(s@[k + 1]) == b),
        decreases n - 1 - i,
    {
        if lower_ascii(s.get_char(i)) == a && lower_ascii(s.get_char(i + 1)) == b {
            return true;
        }
        i = i + 1;
    }
    false
}

/// The language that a locale tag names, if any.
pub fn language_from_tag(tag: &str) -> (r: Option<Language>)
    ensures
        r == tag_language(tag@),
{
    if is_blank(tag) {
        None
    } else if contains_pair(tag, 'z', 'h') {
        Some(Language::Zh)
    } else if contains_pair(tag, 'e', 'n') {
        Some(Language::En)
    } else {
        None
    }
}

/// The first index at or after `from` where `s` holds `c`, or -1.
pub open spec fn find_from(s: Seq<char>, c: char, from: int) -> int
    decreases s.len() - from,
{
    if from < 0 || from >= s.len() {
        -1
    } else if s[from] == c {
        from
    } else {
        find_from(s, c, from + 1)
    }
}

/// The text between the first two double quotes of `s`, if it has two.
pub open spec fn quoted(s: Seq<char>) -> Option<Seq<char>> {
    let open = find_from(s, '"', 0);
    let close = find_from(s, '"', open + 1);
    if open < 0 || close < 0 {
        None
    } else {
        Some(s.subrange(open + 1, close))
    }
}

proof fn lemma_find_from_bounds(s: Seq<char>, c: char, from: int)
    ensures
        find_from(s, c, from) == -1 || (from <= find_from(s, c, from) < s.len() && s[find_from(
            s,
            c,
            from,
        )] == c),
    decreases s.len() - from,
{
    if 0 <= from < s.len() && s[from] != c {
        lemma_find_from_bounds(s, c, from + 1);
    }
}

fn find_quote(s: &str, n: usize, from: usize) -> (r: Option<usize>)
    requires
        n == s@.len(),
        from <= n,
    ensures
        r matches Some(i) ==> i == find_from(s@, '"', from as int),
        r is None ==> find_from(s@, '"', from as int) == -1,
{
    let mut i = from;
    while i < n
        invariant
            n == s@.len(),
            from <= i <= n,
            find_from(s@, '"', from as int) == find_from(s@, '"', i as int),
        decreases n - i,
    {
        if s.get_char(i) == '"' {
            return Some(i);
        }
        i = i + 1;
    }
    None
}

/// The text between the first two double quotes of `s`, such as the first
/// language tag in a printed list of them.
pub fn first_quoted(s: &str) -> (r: Option<&str>)
    ensures
        r matches Some(q) ==> quoted(s@) == Some(q@),
        r is None ==> quoted(s@) is None,
{
    let n = s.unicode_len();
    proof {
        lemma_find_from_bounds(s@, '"', 0);
    }
    match find_quote(s, n, 0) {
        None => None,
        Some(open) => {
            proof {
                lemma_find_from_bounds(s@, '"', open + 1);
            }
            match find_quote(s, n, open + 1) {
                None => None,
                Some(close) => Some(s.substring_char(open + 1, close)),
            }
        },
    }
}

/// The language of the first locale value that names one, else English.
pub open spec fn env_language(values: Seq<String>) -> Language
    decreases values.len(),
{
    if values.len() == 0 {
        Language::En
    } else {
        match tag_language(values[0]@) {
            Some(l) => l,
            None => env_language(values.drop_first()),
        }
    }
}

/// The language named by the locale settings of the environment, given in
/// order of precedence (`LC_ALL`, `LC_MESSAGES`, `LANG`, those that are
/// set); English when none names one.
pub fn detect_system_language_env(values: &Vec<String>) -> (r: Language)
    ensures
        r == env_language(values@),
{
    let mut i: usize = 0;
    proof {
        assert(values@.subrange(0, values@.len() as int) =~= values@);
    }
    while i < values.len()
        invariant
            i <= values@.len(),
            env_language(values@) == env_language(values@.subrange(i as int, values@.len() as int)),
        decreases values@.len() - i,
    {
        proof {
            assert(values@.subrange(i as int, values@.len() as int).drop_first() =~= values@.subrange(
                i + 1,
                values@.len() as int,
            ));
        }
        if let Some(lang) = language_from_tag(values[i].as_str()) {
            return lang;
        }
        i = i + 1;
    }
    proof {
        assert(values@.subrange(i as int, values@.len() as int) =~= Seq::<String>::empty());
    }
    Language::En
}

/// The language of a Windows UI language identifier: Chinese when its
/// primary language is Chinese, English otherwise.
pub fn detect_system_language_windows(ui_langid: u16) -> (r: Language)
    ensures
        r == (if ui_langid % 1024 == 4 { Language::Zh } else { Language::En }),
{
    if ui_langid % 1024 == 4 {
        Language::Zh
    } else {
        Language::En
    }
}

/// The language of the first entry of the macOS `AppleLanguages` setting,
/// given as its printed description; otherwise that of the environment.
pub fn detect_system_language_macos(apple_languages: Option<&str>, env_values: &Vec<String>) -> (r:
    Language)
    ensures
        r == (match apple_languages {
            Some(d) => match quoted(d@) {
                Some(q) => match tag_language(q) {
                    Some(l) => l,
                    None => env_language(env_values@),
                },
                None => env_language(env_values@),
            },
            None => env_language(env_values@),
        }),
{
    if let Some(desc) = apple_languages {
        if let Some(first) = first_quoted(desc) {
            if let Some(lang) = language_from_tag(first) {
                return lang;
            }
        }
    }
    detect_system_language_env(env_values)
}

/// Where the system's language is read from on each platform.
pub enum SystemLocale {
    /// The user's default UI language identifier.
    Windows { ui_langid: u16 },
    /// The printed `AppleLanguages` setting, if there is one, and the
    /// environment's locale values.
    Macos { apple_languages: Option<String>, env_values: Vec<String> },
    /// The environment's locale values alone.
    Env { env_values: Vec<String> },
}

/// The system's language, as each platform reads it.
pub fn detect_system_language(locale: &SystemLocale) -> (r: Language)
    ensures
        r == (match locale {
            SystemLocale::Windows { ui_langid } => if ui_langid % 1024 == 4 {
                Language::Zh
            } else {
                Language::En
            },
            SystemLocale::Macos { apple_languages, env_values } => match apple_languages {
                Some(d) => match quoted(d@) {
                    Some(q) => match tag_language(q) {
                        Some(l) => l,
                        None => env_language(env_values@),
                    },
                    None => env_language(env_values@),
                },
                None => env_language(env_values@),
            },
            SystemLocale::Env { env_values } => env_language(env_values@),
        }),
{
    match locale {
        SystemLocale::Windows { ui_langid } => detect_system_language_windows(*ui_langid),
        SystemLocale::Macos { apple_languages, env_values } => {
            let desc = match apple_languages {
                Some(d) => Some(d.as_str()),
                None => None,
            };
            detect_system_language_macos(desc, env_values)
        },
        SystemLocale::Env { env_values } => detect_system_language_env(env_values),
    }
}

} // verus!
