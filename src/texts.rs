//! The interface texts in each language.

use vstd::prelude::*;
use crate::i18n::Language;
use crate::text::{decimal, push_decimal};

verus! {

/// `en` in English, `zh` in Chinese.
pub open spec fn pick(lang: Language, en: Seq<char>, zh: Seq<char>) -> Seq<char> {
    match lang {
        Language::En => en,
        Language::Zh => zh,
    }
}

/// The short application name in `lang`.
pub open spec fn app_name(lang: Language) -> Seq<char> {
    pick(lang, "RestGap"@, "息间"@)
}

/// The application's version, as the about box shows it.
pub open spec fn version_text() -> Seq<char> {
    "0.1.0"@
}

fn version() -> (r: &'static str)
    ensures
        r@ == version_text(),
{
    "0.1.0"
}

/// The menu entry that opens the about box.
pub open spec fn menu_about_text(lang: Language) -> Seq<char> {
    pick(
        lang,
        "About "@ + app_name(lang),
        "关于 "@ + app_name(lang),
    )
}

/// The menu header: how often and how long the breaks are.
pub open spec fn header_title_text(
    lang: Language,
    interval_minutes: u64,
    break_seconds: u64,
) -> Seq<char> {
    pick(
        lang,
        app_name(lang)
            + " · Break every "@
            + decimal(interval_minutes as nat)
            + " min for "@
            + decimal(break_seconds as nat)
            + " sec"@,
        app_name(lang)
            + " · 每 "@
            + decimal(interval_minutes as nat)
            + " 分钟休息 "@
            + decimal(break_seconds as nat)
            + " 秒"@,
    )
}

/// The menu line about the next break: at `hm`, in about `approx`.
pub open spec fn next_break_title_text(
    lang: Language,
    hm: Seq<char>,
    approx: Seq<char>,
) -> Seq<char> {
    pick(
        lang,
        "Next break: "@ + hm + " ("@ + approx + ")"@,
        "下次休息："@ + hm + "（"@ + approx + "）"@,
    )
}

/// The menu line about the time left in a break, which ends at `end_hm`.
pub open spec fn remaining_title_breaking_text(
    lang: Language,
    approx: Seq<char>,
    end_hm: Seq<char>,
) -> Seq<char> {
    pick(
        lang,
        "Break remaining: "@ + approx + " (until "@ + end_hm + ")"@,
        "休息剩余："@ + approx + "（至 "@ + end_hm + "）"@,
    )
}

/// The tray tip during work: the time of the next break.
pub open spec fn status_tip_working_text(lang: Language, hm: Seq<char>) -> Seq<char> {
    pick(
        lang,
        "⏰ Next break: "@ + hm,
        "⏰ 下次休息："@ + hm,
    )
}

/// The tray tip during a break: the time left.
pub open spec fn status_tip_breaking_text(lang: Language, remaining: Seq<char>) -> Seq<char> {
    pick(
        lang,
        "☕ On break: "@ + remaining,
        "☕ 休息中："@ + remaining,
    )
}

/// The tray tip naming the application.
pub open spec fn tray_tip_app_text(lang: Language) -> Seq<char> {
    pick(
        lang,
        app_name(lang) + " - break reminder"@,
        app_name(lang) + " - 休息提醒"@,
    )
}

/// The about box text on macOS.
pub open spec fn about_message_macos_text(lang: Language) -> Seq<char> {
    pick(
        lang,
        "Version: "@
            + version_text()
            + "\nmacOS menu bar break reminder (event-driven / no polling)."@,
        "版本："@ + version_text() + "\nmacOS 菜单栏休息提醒（事件驱动 / 非轮询）。"@,
    )
}

/// The about box text on Windows, which offers to open the homepage.
pub open spec fn about_message_windows_text(lang: Language) -> Seq<char> {
    pick(
        lang,
        "Version: "@
            + version_text()
            + "\n\nWindows system tray break reminder (event-driven / no polling).\n\nOpen homepage?"@,
        "版本："@ + version_text() + "\n\nWindows 系统托盘休息提醒（事件驱动 / 非轮询）。\n\n是否访问主页？"@,
    )
}

/// The settings prompt on Windows: the current schedule, and an offer to reset it.
pub open spec fn settings_current_windows_text(
    lang: Language,
    interval_minutes: u64,
    break_seconds: u64,
) -> Seq<char> {
    pick(
        lang,
        "Current settings:\n\nBreak every "@
            + decimal(interval_minutes as nat)
            + " minutes for "@
            + decimal(break_seconds as nat)
            + " seconds.\n\nAfter saving, the timer will restart from now.\n\nReset to defaults (30 min / 120 sec)?"@,
        "当前配置：\n\n每 "@
            + decimal(interval_minutes as nat)
            + " 分钟休息 "@
            + decimal(break_seconds as nat)
            + " 秒\n\n保存后将从现在开始重新计时。\n\n是否使用默认配置（30分钟/120秒）？"@,
    )
}

/// The title of the countdown surface.
pub open spec fn countdown_title_text(lang: Language) -> Seq<char> {
    pick(
        lang,
        app_name(lang) + " · Break countdown"@,
        app_name(lang) + " · 休息倒计时"@,
    )
}

/// The interface texts in one language.
pub struct Texts {
    pub lang: Language,
}

impl Texts {
    pub fn new(lang: Language) -> (r: Texts)
        ensures
            r.lang == lang,
    {
        Texts { lang }
    }

    /// The short application name.
    pub fn app_name_short(&self) -> (r: &'static str)
        ensures
            r@ == app_name(self.lang),
    {
        match self.lang {
            Language::En => "RestGap",
            Language::Zh => "息间",
        }
    }

    pub fn menu_next_break_placeholder(&self) -> (r: &'static str)
        ensures
            r@ == pick(self.lang, "Next break: --:--"@, "下次休息：--:--"@),
    {
        match self.lang {
            Language::En => "Next break: --:--",
            Language::Zh => "下次休息：--:--",
        }
    }

    pub fn menu_remaining_placeholder(&self) -> (r: &'static str)
        ensures
            r@ == pick(self.lang, "Break remaining: —"@, "休息剩余：—"@),
    {
        match self.lang {
            Language::En => "Break remaining: —",
            Language::Zh => "休息剩余：—",
        }
    }

    pub fn menu_rest_now(&self) -> (r: &'static str)
        ensures
            r@ == pick(self.lang, "Rest now"@, "现在休息"@),
    {
        match self.lang {
            Language::En => "Rest now",
            Language::Zh => "现在休息",
        }
    }

    pub fn menu_settings(&self) -> (r: &'static str)
        ensures
            r@ == pick(self.lang, "Settings"@, "配置"@),
    {
        match self.lang {
            Language::En => "Settings",
            Language::Zh => "配置",
        }
    }

    pub fn menu_quit(&self) -> (r: &'static str)
        ensures
            r@ == pick(self.lang, "Quit"@, "退出"@),
    {
        match self.lang {
            Language::En => "Quit",
            Language::Zh => "退出",
        }
    }

    pub fn menu_language_header(&self) -> (r: &'static str)
        ensures
            r@ == pick(self.lang, "Language"@, "语言"@),
    {
        match self.lang {
            Language::En => "Language",
            Language::Zh => "语言",
        }
    }

    pub fn language_auto(&self) -> (r: &'static str)
        ensures
            r@ == pick(self.lang, "Auto"@, "自动"@),
    {
        match self.lang {
            Language::En => "Auto",
            Language::Zh => "自动",
        }
    }

    pub fn language_en(&self) -> (r: &'static str)
        ensures
            r@ == pick(self.lang, "English"@, "English"@),
    {
        match self.lang {
            Language::En => "English",
            Language::Zh => "English",
        }
    }

    pub fn language_zh(&self) -> (r: &'static str)
        ensures
            r@ == pick(self.lang, "中文"@, "中文"@),
    {
        match self.lang {
            Language::En => "中文",
            Language::Zh => "中文",
        }
    }

    pub fn remaining_title_working(&self) -> (r: &'static str)
        ensures
            r@ == pick(self.lang, "Break remaining: —"@, "休息剩余：—"@),
    {
        match self.lang {
            Language::En => "Break remaining: —",
            Language::Zh => "休息剩余：—",
        }
    }

    pub fn invalid_settings_title(&self) -> (r: &'static str)
        ensures
            r@ == pick(self.lang, "Invalid settings"@, "配置无效"@),
    {
        match self.lang {
            Language::En => "Invalid settings",
            Language::Zh => "配置无效",
        }
    }

    pub fn invalid_settings_message(&self) -> (r: &'static str)
        ensures
            r@ == pick(self.lang, "Please enter valid numbers: break every N minutes for N seconds."@, "请输入有效的数字：每 N 分钟休息 N 秒。"@),
    {
        match self.lang {
            Language::En => "Please enter valid numbers: break every N minutes for N seconds.",
            Language::Zh => "请输入有效的数字：每 N 分钟休息 N 秒。",
        }
    }

    pub fn settings_title(&self) -> (r: &'static str)
        ensures
            r@ == pick(self.lang, "Settings"@, "配置"@),
    {
        match self.lang {
            Language::En => "Settings",
            Language::Zh => "配置",
        }
    }

    pub fn settings_informative_text(&self) -> (r: &'static str)
        ensures
            r@ == pick(self.lang, "After saving, the timer will restart from now."@, "保存后将从现在开始重新计时。"@),
    {
        match self.lang {
            Language::En => "After saving, the timer will restart from now.",
            Language::Zh => "保存后将从现在开始重新计时。",
        }
    }

    pub fn settings_save_button(&self) -> (r: &'static str)
        ensures
            r@ == pick(self.lang, "Save"@, "保存"@),
    {
        match self.lang {
            Language::En => "Save",
            Language::Zh => "保存",
        }
    }

    pub fn settings_cancel_button(&self) -> (r: &'static str)
        ensures
            r@ == pick(self.lang, "Cancel"@, "取消"@),
    {
        match self.lang {
            Language::En => "Cancel",
            Language::Zh => "取消",
        }
    }

    pub fn settings_language_button(&self) -> (r: &'static str)
        ensures
            r@ == pick(self.lang, "Language…"@, "语言…"@),
    {
        match self.lang {
            Language::En => "Language…",
            Language::Zh => "语言…",
        }
    }

    pub fn settings_interval_label(&self) -> (r: &'static str)
        ensures
            r@ == pick(self.lang, "Break every N minutes:"@, "每 N 分钟休息："@),
    {
        match self.lang {
            Language::En => "Break every N minutes:",
            Language::Zh => "每 N 分钟休息：",
        }
    }

    pub fn settings_break_label(&self) -> (r: &'static str)
        ensures
            r@ == pick(self.lang, "Rest for N seconds:"@, "休息 N 秒："@),
    {
        match self.lang {
            Language::En => "Rest for N seconds:",
            Language::Zh => "休息 N 秒：",
        }
    }

    pub fn choose_language_message(&self) -> (r: &'static str)
        ensures
            r@ == pick(self.lang, "Choose your preferred language."@, "选择界面语言。"@),
    {
        match self.lang {
            Language::En => "Choose your preferred language.",
            Language::Zh => "选择界面语言。",
        }
    }

    pub fn choose_language_note(&self) -> (r: &'static str)
        ensures
            r@ == pick(self.lang, "Auto follows your system language."@, "“自动”将跟随系统语言。"@),
    {
        match self.lang {
            Language::En => "Auto follows your system language.",
            Language::Zh => "“自动”将跟随系统语言。",
        }
    }

    pub fn ok_button(&self) -> (r: &'static str)
        ensures
            r@ == pick(self.lang, "OK"@, "好"@),
    {
        match self.lang {
            Language::En => "OK",
            Language::Zh => "好",
        }
    }

    pub fn visit_homepage_button(&self) -> (r: &'static str)
        ensures
            r@ == pick(self.lang, "Visit homepage"@, "访问主页"@),
    {
        match self.lang {
            Language::En => "Visit homepage",
            Language::Zh => "访问主页",
        }
    }

    pub fn countdown_hint(&self) -> (r: &'static str)
        ensures
            r@ == pick(self.lang, "Relax your eyes, stretch your body"@, "放松眼睛，伸展身体"@),
    {
        match self.lang {
            Language::En => "Relax your eyes, stretch your body",
            Language::Zh => "放松眼睛，伸展身体",
        }
    }

    pub fn menu_about(&self) -> (r: String)
        ensures
            r@ == menu_about_text(self.lang),
    {
        let mut s = String::new();
        match self.lang {
            Language::En => {
                s.append("About ");
                s.append(self.app_name_short());
            },
            Language::Zh => {
                s.append("关于 ");
                s.append(self.app_name_short());
            },
        }
        assert(s@ =~= menu_about_text(self.lang));
        s
    }

    pub fn header_title(&self, interval_minutes: u64, break_seconds: u64) -> (r: String)
        ensures
            r@ == header_title_text(self.lang, interval_minutes, break_seconds),
    {
        let mut s = String::new();
        match self.lang {
            Language::En => {
                s.append(self.app_name_short());
                s.append(" · Break every ");
                push_decimal(&mut s, interval_minutes);
                s.append(" min for ");
                push_decimal(&mut s, break_seconds);
                s.append(" sec");
            },
            Language::Zh => {
                s.append(self.app_name_short());
                s.append(" · 每 ");
                push_decimal(&mut s, interval_minutes);
                s.append(" 分钟休息 ");
                push_decimal(&mut s, break_seconds);
                s.append(" 秒");
            },
        }
        assert(s@ =~= header_title_text(self.lang, interval_minutes, break_seconds));
        s
    }

    pub fn next_break_title(&self, hm: &str, approx: &str) -> (r: String)
        ensures
            r@ == next_break_title_text(self.lang, hm@, approx@),
    {
        let mut s = String::new();
        match self.lang {
            Language::En => {
                s.append("Next break: ");
                s.append(hm);
                s.append(" (");
                s.append(approx);
                s.append(")");
            },
            Language::Zh => {
                s.append("下次休息：");
                s.append(hm);
                s.append("（");
                s.append(approx);
                s.append("）");
            },
        }
        assert(s@ =~= next_break_title_text(self.lang, hm@, approx@));
        s
    }

    pub fn remaining_title_breaking(&self, approx: &str, end_hm: &str) -> (r: String)
        ensures
            r@ == remaining_title_breaking_text(self.lang, approx@, end_hm@),
    {
        let mut s = String::new();
        match self.lang {
            Language::En => {
                s.append("Break remaining: ");
                s.append(approx);
                s.append(" (until ");
                s.append(end_hm);
                s.append(")");
            },
            Language::Zh => {
                s.append("休息剩余：");
                s.append(approx);
                s.append("（至 ");
                s.append(end_hm);
                s.append("）");
            },
        }
        assert(s@ =~= remaining_title_breaking_text(self.lang, approx@, end_hm@));
        s
    }

    pub fn status_tip_working(&self, hm: &str) -> (r: String)
        ensures
            r@ == status_tip_working_text(self.lang, hm@),
    {
        let mut s = String::new();
        match self.lang {
            Language::En => {
                s.append("⏰ Next break: ");
                s.append(hm);
            },
            Language::Zh => {
                s.append("⏰ 下次休息：");
                s.append(hm);
            },
        }
        assert(s@ =~= status_tip_working_text(self.lang, hm@));
        s
    }

    pub fn status_tip_breaking(&self, remaining: &str) -> (r: String)
        ensures
            r@ == status_tip_breaking_text(self.lang, remaining@),
    {
        let mut s = String::new();
        match self.lang {
            Language::En => {
                s.append("☕ On break: ");
                s.append(remaining);
            },
            Language::Zh => {
                s.append("☕ 休息中：");
                s.append(remaining);
            },
        }
        assert(s@ =~= status_tip_breaking_text(self.lang, remaining@));
        s
    }

    pub fn tray_tip_app(&self) -> (r: String)
        ensures
            r@ == tray_tip_app_text(self.lang),
    {
        let mut s = String::new();
        match self.lang {
            Language::En => {
                s.append(self.app_name_short());
                s.append(" - break reminder");
            },
            Language::Zh => {
                s.append(self.app_name_short());
                s.append(" - 休息提醒");
            },
        }
        assert(s@ =~= tray_tip_app_text(self.lang));
        s
    }

    pub fn about_message_macos(&self) -> (r: String)
        ensures
            r@ == about_message_macos_text(self.lang),
    {
        let mut s = String::new();
        match self.lang {
            Language::En => {
                s.append("Version: ");
                s.append(version());
                s.append("\nmacOS menu bar break reminder (event-driven / no polling).");
            },
            Language::Zh => {
                s.append("版本：");
                s.append(version());
                s.append("\nmacOS 菜单栏休息提醒（事件驱动 / 非轮询）。");
            },
        }
        assert(s@ =~= about_message_macos_text(self.lang));
        s
    }

    pub fn about_message_windows(&self) -> (r: String)
        ensures
            r@ == about_message_windows_text(self.lang),
    {
        let mut s = String::new();
        match self.lang {
            Language::En => {
                s.append("Version: ");
                s.append(version());
                s.append("\n\nWindows system tray break reminder (event-driven / no polling).\n\nOpen homepage?");
            },
            Language::Zh => {
                s.append("版本：");
                s.append(version());
                s.append("\n\nWindows 系统托盘休息提醒（事件驱动 / 非轮询）。\n\n是否访问主页？");
            },
        }
        assert(s@ =~= about_message_windows_text(self.lang));
        s
    }

    pub fn settings_current_windows(&self, interval_minutes: u64, break_seconds: u64) -> (r: String)
        ensures
            r@ == settings_current_windows_text(self.lang, interval_minutes, break_seconds),
    {
        let mut s = String::new();
        match self.lang {
            Language::En => {
                s.append("Current settings:\n\nBreak every ");
                push_decimal(&mut s, interval_minutes);
                s.append(" minutes for ");
                push_decimal(&mut s, break_seconds);
                s.append(" seconds.\n\nAfter saving, the timer will restart from now.\n\nReset to defaults (30 min / 120 sec)?");
            },
            Language::Zh => {
                s.append("当前配置：\n\n每 ");
                push_decimal(&mut s, interval_minutes);
                s.append(" 分钟休息 ");
                push_decimal(&mut s, break_seconds);
                s.append(" 秒\n\n保存后将从现在开始重新计时。\n\n是否使用默认配置（30分钟/120秒）？");
            },
        }
        assert(s@ =~= settings_current_windows_text(self.lang, interval_minutes, break_seconds));
        s
    }

    pub fn countdown_title(&self) -> (r: String)
        ensures
            r@ == countdown_title_text(self.lang),
    {
        let mut s = String::new();
        match self.lang {
            Language::En => {
                s.append(self.app_name_short());
                s.append(" · Break countdown");
            },
            Language::Zh => {
                s.append(self.app_name_short());
                s.append(" · 休息倒计时");
            },
        }
        assert(s@ =~= countdown_title_text(self.lang));
        s
    }
}

} // verus!
