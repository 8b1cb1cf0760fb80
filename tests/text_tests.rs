use restgap::error::AppError;
use restgap::i18n::{
    detect_system_language, detect_system_language_env, detect_system_language_macos,
    detect_system_language_windows, first_quoted, language_from_tag, Language,
    LanguagePreference, SystemLocale,
};
use restgap::layout::{clamp_i32, countdown_layout, line_rect, Rect};
use restgap::log::LogLevel;
use restgap::surface::{build_kegel_html, countdown_script, escape_html, set_countdown_script};
use restgap::text::decimal_string;
use restgap::texts::Texts;
use restgap::wide::{to_wide_array, to_wide_string};

#[test]
fn test_log_level_ordering() {
    assert!(LogLevel::Debug < LogLevel::Info);
    assert!(LogLevel::Info < LogLevel::Warn);
    assert!(LogLevel::Warn < LogLevel::Error);
}

#[test]
fn test_log_level_as_str() {
    assert_eq!(LogLevel::Debug.as_str(), "DEBUG");
    assert_eq!(LogLevel::Info.as_str(), "INFO");
    assert_eq!(LogLevel::Warn.as_str(), "WARN");
    assert_eq!(LogLevel::Error.as_str(), "ERROR");
}

#[test]
fn log_threshold_and_line() {
    assert!(LogLevel::Warn.enabled(LogLevel::Info));
    assert!(LogLevel::Info.enabled(LogLevel::Info));
    assert!(!LogLevel::Debug.enabled(LogLevel::Info));
    assert_eq!(LogLevel::Warn.line("disk"), "[RestGap] [WARN] disk");
}

#[test]
fn app_error_messages() {
    assert_eq!(AppError::Config("x".to_string()).message(), "配置错误: x");
    assert_eq!(AppError::Ui("y".to_string()).message(), "UI 错误: y");
    assert_eq!(AppError::System("z".to_string()).message(), "系统错误: z");
}

#[test]
fn language_tags() {
    assert_eq!(language_from_tag("zh-Hans"), Some(Language::Zh));
    assert_eq!(language_from_tag("  ZH_cn.UTF-8 "), Some(Language::Zh));
    assert_eq!(language_from_tag("en_US.UTF-8"), Some(Language::En));
    assert_eq!(language_from_tag("EN"), Some(Language::En));
    assert_eq!(language_from_tag("fr_FR"), None);
    assert_eq!(language_from_tag("   "), None);
    assert_eq!(language_from_tag(""), None);
    assert_eq!(language_from_tag("z h"), None);
}

#[test]
fn first_quoted_extracts_first_tag() {
    assert_eq!(first_quoted("(\n    \"zh-Hans-CN\",\n    \"en-US\"\n)"), Some("zh-Hans-CN"));
    assert_eq!(first_quoted("no quotes"), None);
    assert_eq!(first_quoted("one \" only"), None);
    assert_eq!(first_quoted("\"\""), Some(""));
}

#[test]
fn system_language_detection() {
    let env = vec!["C".to_string(), "zh_CN.UTF-8".to_string()];
    assert_eq!(detect_system_language_env(&env), Language::Zh);
    assert_eq!(detect_system_language_env(&vec![]), Language::En);
    assert_eq!(detect_system_language_windows(0x0804), Language::Zh);
    assert_eq!(detect_system_language_windows(0x0409), Language::En);
    assert_eq!(detect_system_language_macos(Some("(\"en-GB\")"), &env), Language::En);
    assert_eq!(detect_system_language_macos(Some("(\"de-DE\")"), &env), Language::Zh);
    assert_eq!(detect_system_language_macos(None, &vec![]), Language::En);
    let locale = SystemLocale::Macos {
        apple_languages: Some("(\"zh-Hant\")".to_string()),
        env_values: vec![],
    };
    assert_eq!(detect_system_language(&locale), Language::Zh);
    assert_eq!(detect_system_language(&SystemLocale::Windows { ui_langid: 0x0404 }), Language::Zh);
    assert_eq!(
        detect_system_language(&SystemLocale::Env { env_values: vec!["en_GB".to_string()] }),
        Language::En
    );
    assert_eq!(LanguagePreference::Auto.resolve(Language::Zh), Language::Zh);
    assert_eq!(LanguagePreference::En.resolve(Language::Zh), Language::En);
}

#[test]
fn texts_in_both_languages() {
    let en = Texts::new(Language::En);
    let zh = Texts::new(Language::Zh);
    assert_eq!(en.app_name_short(), "RestGap");
    assert_eq!(zh.app_name_short(), "息间");
    assert_eq!(en.menu_rest_now(), "Rest now");
    assert_eq!(zh.menu_rest_now(), "现在休息");
    assert_eq!(en.menu_about(), "About RestGap");
    assert_eq!(zh.menu_about(), "关于 息间");
    assert_eq!(en.header_title(30, 120), "RestGap · Break every 30 min for 120 sec");
    assert_eq!(zh.header_title(5, 7), "息间 · 每 5 分钟休息 7 秒");
    assert_eq!(en.next_break_title("12:30", "≈5m"), "Next break: 12:30 (≈5m)");
    assert_eq!(zh.next_break_title("12:30", "≈5m"), "下次休息：12:30（≈5m）");
    assert_eq!(en.remaining_title_breaking("≈1m", "10:00"), "Break remaining: ≈1m (until 10:00)");
    assert_eq!(en.status_tip_working("09:00"), "⏰ Next break: 09:00");
    assert_eq!(zh.status_tip_breaking("≈10s"), "☕ 休息中：≈10s");
    assert_eq!(en.tray_tip_app(), "RestGap - break reminder");
    assert_eq!(en.countdown_title(), "RestGap · Break countdown");
    assert_eq!(zh.countdown_title(), "息间 · 休息倒计时");
    assert_eq!(en.countdown_hint(), "Relax your eyes, stretch your body");
    assert_eq!(en.language_zh(), "中文");
    assert_eq!(zh.language_en(), "English");
    assert!(en.about_message_macos().starts_with("Version: 0.1.0\nmacOS"));
    assert!(zh.about_message_windows().starts_with("版本：0.1.0\n\nWindows"));
    assert!(en
        .settings_current_windows(45, 90)
        .starts_with("Current settings:\n\nBreak every 45 minutes for 90 seconds."));
    assert_eq!(zh.remaining_title_working(), "休息剩余：—");
    assert_eq!(en.menu_next_break_placeholder(), "Next break: --:--");
}

#[test]
fn decimal_rendering() {
    assert_eq!(decimal_string(0), "0");
    assert_eq!(decimal_string(907), "907");
    assert_eq!(decimal_string(u64::MAX), "18446744073709551615");
}

#[test]
fn html_escaping_and_page() {
    assert_eq!(escape_html("a<b>&\"c'"), "a&lt;b&gt;&amp;&quot;c&#39;");
    assert_eq!(escape_html("中文"), "中文");
    let page = build_kegel_html("T<", "01:00", "h&");
    assert!(page.contains("<div class=\"title\" id=\"title\">T&lt;</div>"));
    assert!(page.contains("<div class=\"countdown\" id=\"countdown\">01:00</div>"));
    assert!(page.contains("<div class=\"hint\" id=\"hint\">h&amp;</div>"));
    assert!(!page.contains("__TITLE__"));
}

#[test]
fn countdown_scripts_quote_json() {
    assert_eq!(countdown_script("01:05"), "window.setCountdown(\"01:05\");");
    assert_eq!(countdown_script("a\"b\\"), "window.setCountdown(\"a\\\"b\\\\\");");
    assert_eq!(set_countdown_script("\"x\""), "window.setCountdown(\"x\");");
}

#[test]
fn wide_strings() {
    assert_eq!(to_wide_string("ab"), vec![0x61, 0x62, 0]);
    assert_eq!(to_wide_string("😀"), vec![0xD83D, 0xDE00, 0]);
    assert_eq!(to_wide_string(""), vec![0]);
    let arr: [u16; 4] = to_wide_array("hello");
    assert_eq!(arr, [0x68, 0x65, 0x6c, 0]);
    let arr: [u16; 5] = to_wide_array("é");
    assert_eq!(arr, [0xe9, 0, 0, 0, 0]);
}

#[test]
fn layout_scales_with_screen() {
    assert_eq!(clamp_i32(5, 1, 10), 5);
    assert_eq!(clamp_i32(-5, 1, 10), 1);
    assert_eq!(clamp_i32(50, 1, 10), 10);
    let l = countdown_layout(0, 0, 1920, 1080);
    assert_eq!((l.title_px, l.countdown_px, l.hint_px), (56, 120, 36));
    assert_eq!((l.title_center_y, l.countdown_center_y, l.hint_center_y), (345, 540, 734));
    let l = countdown_layout(0, 100, 300, 300);
    assert_eq!((l.title_px, l.countdown_px, l.hint_px), (28, 64, 18));
    assert_eq!(l.title_center_y, 164);
}

#[test]
fn line_band_is_centred() {
    let full = Rect { left: 0, top: 0, right: 1920, bottom: 1080 };
    let band = line_rect(&full, 540, 240);
    assert_eq!(band, Rect { left: 0, top: 420, right: 1920, bottom: 660 });
    assert_eq!(line_rect(&full, 10, 5), Rect { left: 0, top: 8, right: 1920, bottom: 12 });
}
