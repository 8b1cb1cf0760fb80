use restgap::config::{clamp_u64, Config};
use restgap::i18n::{Language, LanguagePreference};
use restgap::timefmt::Span;

#[test]
fn test_clamp_u64() {
    assert_eq!(clamp_u64(5, 1, 10), 5);
    assert_eq!(clamp_u64(0, 1, 10), 1);
    assert_eq!(clamp_u64(15, 1, 10), 10);
}

#[test]
fn test_config_default() {
    let config = Config::default();
    assert_eq!(config.interval_minutes, Config::DEFAULT_INTERVAL_MINUTES);
    assert_eq!(config.break_seconds, Config::DEFAULT_BREAK_SECONDS);
    assert_eq!(config.language, LanguagePreference::Auto);
}

#[test]
fn test_work_interval() {
    let config = Config {
        interval_minutes: 30,
        break_seconds: 120,
        language: LanguagePreference::Auto,
    };
    assert_eq!(config.work_interval(), Span::from_secs(1800));
}

#[test]
fn test_break_duration() {
    let config = Config {
        interval_minutes: 30,
        break_seconds: 120,
        language: LanguagePreference::Auto,
    };
    assert_eq!(config.break_duration(), Span::from_secs(120));
}

#[test]
fn validate_clamps_interval_to_one_and_240() {
    let low = Config::validate(Config {
        interval_minutes: 0,
        break_seconds: 120,
        language: LanguagePreference::Auto,
    });
    assert_eq!(low.interval_minutes, 1);
    let high = Config::validate(Config {
        interval_minutes: 9999,
        break_seconds: 120,
        language: LanguagePreference::En,
    });
    assert_eq!(high.interval_minutes, 240);
    assert_eq!(high.language, LanguagePreference::En);
}

#[test]
fn validate_clamps_break_seconds() {
    let c = Config::validate(Config {
        interval_minutes: 30,
        break_seconds: 1,
        language: LanguagePreference::Auto,
    });
    assert_eq!(c.break_seconds, 5);
    let c = Config::validate(Config {
        interval_minutes: 30,
        break_seconds: 100_000,
        language: LanguagePreference::Auto,
    });
    assert_eq!(c.break_seconds, 3600);
}

#[test]
fn tolerances_are_a_tenth_within_bounds() {
    let c = Config { interval_minutes: 30, break_seconds: 120, language: LanguagePreference::Auto };
    assert_eq!(c.work_tolerance(), Span::from_millis(120_000));
    assert_eq!(c.break_tolerance(), Span::from_millis(5_000));
    let c = Config { interval_minutes: 1, break_seconds: 5, language: LanguagePreference::Auto };
    assert_eq!(c.work_tolerance(), Span::from_millis(6_000));
    assert_eq!(c.break_tolerance(), Span::from_millis(500));
    let c = Config { interval_minutes: 10, break_seconds: 30, language: LanguagePreference::Auto };
    assert_eq!(c.work_tolerance(), Span::from_millis(60_000));
    assert_eq!(c.break_tolerance(), Span::from_millis(3_000));
}

#[test]
fn from_stored_falls_back_to_legacy_then_default() {
    let c = Config::from_stored(45, 10, 0, 90, 2);
    assert_eq!(c.interval_minutes, 45);
    assert_eq!(c.break_seconds, 90);
    assert_eq!(c.language, LanguagePreference::Zh);
    let c = Config::from_stored(0, -3, -1, 0, 7);
    assert_eq!(c.interval_minutes, 30);
    assert_eq!(c.break_seconds, 120);
    assert_eq!(c.language, LanguagePreference::Auto);
    let c = Config::from_stored(9999, 0, 2, 0, 1);
    assert_eq!(c.interval_minutes, 240);
    assert_eq!(c.break_seconds, 5);
    assert_eq!(c.language, LanguagePreference::En);
}

#[test]
fn stored_values_round_trip() {
    let c = Config { interval_minutes: 45, break_seconds: 90, language: LanguagePreference::Zh };
    let (i, b, l) = c.stored_values();
    assert_eq!((i, b, l), (45, 90, 2));
    assert_eq!(Config::from_stored(i, 0, b, 0, l), c);
    let big = Config { interval_minutes: u64::MAX, break_seconds: 3, language: LanguagePreference::Auto };
    assert_eq!(big.stored_values(), (i64::MAX, 3, 0));
}

#[test]
fn settings_input_is_parsed_and_clamped() {
    let c = Config::from_settings_input(" 45 ", "\t90\n", LanguagePreference::En).unwrap();
    assert_eq!(c.interval_minutes, 45);
    assert_eq!(c.break_seconds, 90);
    assert_eq!(c.language, LanguagePreference::En);
    let c = Config::from_settings_input("+500", "2", LanguagePreference::Auto).unwrap();
    assert_eq!(c.interval_minutes, 240);
    assert_eq!(c.break_seconds, 5);
}

#[test]
fn settings_input_rejects_zero_and_non_numbers() {
    assert_eq!(Config::from_settings_input("0", "90", LanguagePreference::Auto), None);
    assert_eq!(Config::from_settings_input("30", "0", LanguagePreference::Auto), None);
    assert_eq!(Config::from_settings_input("abc", "90", LanguagePreference::Auto), None);
    assert_eq!(Config::from_settings_input("30", "", LanguagePreference::Auto), None);
    assert_eq!(Config::from_settings_input("-5", "90", LanguagePreference::Auto), None);
    assert_eq!(Config::from_settings_input("3 0", "90", LanguagePreference::Auto), None);
    assert_eq!(
        Config::from_settings_input("18446744073709551616", "90", LanguagePreference::Auto),
        None
    );
}

#[test]
fn effective_language_follows_preference() {
    let mut c = Config::default();
    assert_eq!(c.effective_language(Language::Zh), Language::Zh);
    c.language = LanguagePreference::En;
    assert_eq!(c.effective_language(Language::Zh), Language::En);
    c.language = LanguagePreference::Zh;
    assert_eq!(c.effective_language(Language::En), Language::Zh);
    assert_eq!(LanguagePreference::default(), LanguagePreference::Auto);
}
