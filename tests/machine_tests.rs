use restgap::config::Config;
use restgap::events::Event;
use restgap::i18n::{Language, LanguagePreference};
use restgap::machine::{
    init_state, Action, AppState, NotifyEvent, Now, Phase, PhaseDeadline, SoundType,
};
use restgap::timefmt::Span;

fn cfg(interval_minutes: u64, break_seconds: u64) -> Config {
    Config { interval_minutes, break_seconds, language: LanguagePreference::En }
}

fn at(mono: u64) -> Now {
    Now { mono_millis: mono, wall_millis: 1_704_067_200_000 + mono }
}

fn started(config: Config, now: Now) -> AppState {
    let mut s = init_state(config);
    let mut actions = Vec::new();
    s.schedule_phase(Phase::Working, now, &mut actions);
    s
}

#[test]
fn schedule_phase_sets_deadline_and_arms_timer() {
    let mut s = init_state(cfg(30, 120));
    assert_eq!(s.phase, Phase::Working);
    assert_eq!(s.deadline, None);
    let mut actions = Vec::new();
    s.schedule_phase(Phase::Working, at(1000), &mut actions);
    assert_eq!(
        s.deadline,
        Some(PhaseDeadline {
            mono_millis: 1000 + 1_800_000,
            wall_millis: 1_704_067_200_000 + 1000 + 1_800_000
        })
    );
    assert_eq!(
        actions,
        vec![
            Action::CancelPhaseTimer,
            Action::ArmPhaseTimer {
                delay: Span::from_secs(1800),
                tolerance: Span::from_secs(120)
            },
            Action::Refresh,
        ]
    );
}

#[test]
fn remaining_right_after_schedule_is_within_tolerance() {
    for (minutes, secs) in [(1u64, 5u64), (30, 120), (240, 3600), (7, 61)] {
        let config = cfg(minutes, secs);
        for phase in [Phase::Working, Phase::Breaking] {
            let mut s = init_state(config);
            let mut actions = Vec::new();
            s.schedule_phase(phase, at(5000), &mut actions);
            let (len, tol) = match phase {
                Phase::Working => (config.work_interval(), config.work_tolerance()),
                Phase::Breaking => (config.break_duration(), config.break_tolerance()),
            };
            for later in [0, 1, tol.as_millis() - 1] {
                let left = s.remaining(at(5000 + later)).as_millis();
                assert!(left <= len.as_millis());
                assert!(left > len.as_millis() - tol.as_millis());
            }
        }
    }
}

#[test]
fn phases_alternate_on_timer() {
    let mut s = started(cfg(30, 120), at(0));
    let mut now = 0u64;
    for n in 1..=7u64 {
        now += 1000;
        let mut actions = Vec::new();
        s.transition_on_timer(at(now), &mut actions);
        let expected = if n % 2 == 0 { Phase::Working } else { Phase::Breaking };
        assert_eq!(s.phase, expected);
        assert_eq!(s.countdown.is_some(), expected == Phase::Breaking);
    }
}

#[test]
fn timer_from_working_opens_countdown_and_schedules_break() {
    let mut s = started(cfg(30, 120), at(0));
    let mut actions = Vec::new();
    s.transition_on_timer(at(1_800_000), &mut actions);
    assert_eq!(s.phase, Phase::Breaking);
    assert_eq!(s.countdown.unwrap().end_mono_millis, 1_800_000 + 120_000);
    assert_eq!(s.deadline.unwrap().mono_millis, 1_800_000 + 120_000);
    assert_eq!(
        actions,
        vec![
            Action::CloseCountdown,
            Action::PlaySound(SoundType::BreakStart),
            Action::OpenCountdown { seconds: 120 },
            Action::CancelPhaseTimer,
            Action::ArmPhaseTimer { delay: Span::from_secs(120), tolerance: Span::from_secs(5) },
            Action::Refresh,
        ]
    );
}

#[test]
fn timer_from_breaking_closes_countdown() {
    let mut s = started(cfg(30, 120), at(0));
    let mut actions = Vec::new();
    s.transition_on_timer(at(10), &mut actions);
    actions.clear();
    s.transition_on_timer(at(20), &mut actions);
    assert_eq!(s.phase, Phase::Working);
    assert_eq!(s.countdown, None);
    assert_eq!(&actions[..2], &[Action::CloseCountdown, Action::PlaySound(SoundType::BreakEnd)]);
}

#[test]
fn start_break_now_is_noop_while_breaking() {
    let mut s = started(cfg(30, 120), at(0));
    let mut actions = Vec::new();
    s.start_break_now(at(100), &mut actions);
    assert_eq!(s.phase, Phase::Breaking);
    let before = s;
    let mut more = Vec::new();
    s.start_break_now(at(200), &mut more);
    assert_eq!(s, before);
    assert!(more.is_empty());
}

#[test]
fn skip_break_is_noop_while_working() {
    let mut s = started(cfg(30, 120), at(0));
    let before = s;
    let mut actions = Vec::new();
    s.skip_break(at(100), &mut actions);
    assert_eq!(s, before);
    assert!(actions.is_empty());
}

#[test]
fn skip_break_ends_break_early() {
    let mut s = started(cfg(30, 120), at(0));
    let mut actions = Vec::new();
    s.start_break_now(at(100), &mut actions);
    actions.clear();
    s.skip_break(at(5000), &mut actions);
    assert_eq!(s.phase, Phase::Working);
    assert_eq!(s.countdown, None);
    assert_eq!(s.deadline.unwrap().mono_millis, 5000 + 1_800_000);
    assert_eq!(actions[0], Action::CloseCountdown);
    assert_eq!(actions[1], Action::PlaySound(SoundType::BreakEnd));
}

#[test]
fn apply_new_config_while_breaking_restarts_from_now() {
    let mut s = started(cfg(30, 120), at(0));
    let mut actions = Vec::new();
    s.start_break_now(at(1000), &mut actions);
    let old_deadline = s.deadline.unwrap().mono_millis;
    assert_eq!(old_deadline, 1000 + 120_000);
    actions.clear();
    s.apply_new_config(cfg(45, 300), at(61_000), &mut actions);
    assert_eq!(s.phase, Phase::Breaking);
    assert_eq!(s.deadline.unwrap().mono_millis, 61_000 + 300_000);
    assert_eq!(s.countdown.unwrap().end_mono_millis, 61_000 + 300_000);
    assert_eq!(s.config.interval_minutes, 45);
    assert!(!actions.contains(&Action::PlaySound(SoundType::BreakStart)));
    assert_eq!(actions.last(), Some(&Action::OpenCountdown { seconds: 300 }));
}

#[test]
fn apply_new_config_while_working_reschedules_work() {
    let mut s = started(cfg(30, 120), at(0));
    let mut actions = Vec::new();
    s.apply_new_config(cfg(10, 60), at(500), &mut actions);
    assert_eq!(s.phase, Phase::Working);
    assert_eq!(s.deadline.unwrap().mono_millis, 500 + 600_000);
    assert_eq!(s.countdown, None);
    assert_eq!(actions.len(), 3);
}

#[test]
fn remaining_saturates_and_next_break_adds_work() {
    let mut s = started(cfg(30, 120), at(0));
    assert_eq!(s.remaining(at(2_000_000)), Span::from_millis(0));
    assert_eq!(s.next_break_in(at(600_000)), Span::from_millis(1_200_000));
    assert_eq!(s.next_break_wall(), Some(1_704_067_200_000 + 1_800_000));
    let mut actions = Vec::new();
    s.start_break_now(at(1000), &mut actions);
    assert_eq!(s.next_break_in(at(61_000)), Span::from_millis(60_000 + 1_800_000));
    assert_eq!(s.next_break_wall(), Some(1_704_067_200_000 + 1000 + 120_000 + 1_800_000));
    assert_eq!(s.phase_end_wall(), Some(1_704_067_200_000 + 1000 + 120_000));
    assert!(!s.rest_now_enabled());
    assert_eq!(init_state(cfg(30, 120)).remaining(at(5)), Span::from_millis(0));
}

#[test]
fn countdown_ticks_then_finishes() {
    let mut s = started(cfg(30, 10), at(0));
    let mut actions = Vec::new();
    s.start_break_now(at(0), &mut actions);
    actions.clear();
    s.countdown_tick(at(1500), &mut actions);
    assert_eq!(actions, vec![Action::UpdateCountdown { remaining_secs: 8 }]);
    actions.clear();
    assert!(s.update_countdown(at(9999), &mut actions));
    assert_eq!(actions, vec![Action::UpdateCountdown { remaining_secs: 0 }]);
    actions.clear();
    s.countdown_tick(at(10_000), &mut actions);
    assert_eq!(s.countdown, None);
    assert_eq!(s.phase, Phase::Breaking);
    assert_eq!(actions, vec![Action::CloseCountdown, Action::PlaySound(SoundType::BreakEnd)]);
    actions.clear();
    s.countdown_tick(at(11_000), &mut actions);
    assert!(actions.is_empty());
}

#[test]
fn notify_events_drive_countdown() {
    let mut s = started(cfg(30, 120), at(0));
    let mut actions = Vec::new();
    s.notify(NotifyEvent::BreakStart, at(0), &mut actions);
    assert!(s.countdown.is_some());
    s.notify(NotifyEvent::BreakEnd, at(0), &mut actions);
    assert!(s.countdown.is_none());
}

#[test]
fn typed_skip_phrase_requests_skip() {
    let mut s = started(cfg(30, 120), at(0));
    let mut actions = Vec::new();
    s.start_break_now(at(0), &mut actions);
    let phrase = "I DON'T care about my health.";
    let mut hits = 0;
    for (i, ch) in phrase.chars().enumerate() {
        let done = s.on_countdown_char(ch);
        if done {
            hits += 1;
            assert_eq!(i, phrase.chars().count() - 1);
        }
    }
    assert_eq!(hits, 1);
    assert!(s.countdown.unwrap().skip_requested);
    assert!(!s.on_countdown_char('x'));
}

#[test]
fn typographic_phrase_with_restart_and_controls() {
    let mut s = started(cfg(30, 120), at(0));
    let mut actions = Vec::new();
    s.start_break_now(at(0), &mut actions);
    for ch in "i doxi\u{8}".chars() {
        assert!(!s.on_countdown_char(ch));
    }
    let mut last = false;
    for ch in " don’t care about my health.".chars() {
        last = s.on_countdown_char(ch);
    }
    assert!(last);
}

#[test]
fn keys_ignored_without_countdown() {
    let mut s = started(cfg(30, 120), at(0));
    let before = s;
    for ch in "i don't care about my health.".chars() {
        assert!(!s.on_countdown_char(ch));
    }
    assert_eq!(s, before);
}

#[test]
fn events_dispatch() {
    let mut s = init_state(cfg(30, 120));
    let mut actions = Vec::new();
    s.handle(Event::Launched, at(0), &mut actions);
    assert_eq!(s.phase, Phase::Working);
    s.handle(Event::RestNow, at(10), &mut actions);
    assert_eq!(s.phase, Phase::Breaking);
    actions.clear();
    s.handle(Event::MenuOpened, at(20), &mut actions);
    assert_eq!(actions, vec![Action::Refresh]);
    for ch in "i don't care about my health.".chars() {
        s.handle(Event::CountdownChar(ch), at(30), &mut actions);
    }
    assert_eq!(s.phase, Phase::Working);
    assert_eq!(s.countdown, None);
    s.handle(Event::NewLanguage(LanguagePreference::Zh), at(40), &mut actions);
    assert_eq!(s.config.language, LanguagePreference::Zh);
    s.handle(Event::NewConfig(cfg(20, 30)), at(50), &mut actions);
    assert_eq!(s.deadline.unwrap().mono_millis, 50 + 1_200_000);
    s.handle(Event::PhaseTimerFired, at(60), &mut actions);
    assert_eq!(s.phase, Phase::Breaking);
    s.handle(Event::CountdownTick, at(70), &mut actions);
    s.handle(Event::SkipBreak, at(80), &mut actions);
    assert_eq!(s.phase, Phase::Working);
}

#[test]
fn summary_texts() {
    let config = cfg(30, 120);
    let mut s = started(config, at(0));
    let sum = s.summary(at(0), Language::En, 0);
    assert_eq!(sum.status_title, "⏰ 00:30");
    assert_eq!(sum.header_title, "RestGap · Break every 30 min for 120 sec");
    assert_eq!(sum.next_break_title, "Next break: 00:30 (≈30m)");
    assert_eq!(sum.remaining_title, "Break remaining: —");
    assert!(sum.rest_now_enabled);
    let mut actions = Vec::new();
    s.start_break_now(at(0), &mut actions);
    let sum = s.summary(at(0), Language::En, 8 * 3600);
    assert_eq!(sum.status_title, "☕ ≈2m");
    assert_eq!(sum.next_break_title, "Next break: 08:32 (≈30m)");
    assert_eq!(sum.remaining_title, "Break remaining: ≈2m (until 08:02)");
    assert!(!sum.rest_now_enabled);
    s.config.language = LanguagePreference::Zh;
    assert_eq!(s.header_title(Language::En), "息间 · 每 30 分钟休息 120 秒");
    assert_eq!(s.remaining_title(at(0), Language::En, 0), "休息剩余：≈2m（至 00:02）");
    let fresh = init_state(config);
    assert_eq!(fresh.status_title(at(0), 0), "⏰ --:--");
}

#[test]
fn failed_arm_is_retried_once_then_warned() {
    let mut s = started(cfg(30, 120), at(0));
    let mut actions = Vec::new();
    s.handle(Event::PhaseTimerArmFailed, at(60_000), &mut actions);
    assert_eq!(
        actions,
        vec![Action::ArmPhaseTimer {
            delay: Span::from_millis(1_740_000),
            tolerance: Span::from_secs(120)
        }]
    );
    actions.clear();
    s.on_arm_failed(at(61_000), &mut actions);
    assert_eq!(actions, vec![Action::WarnTimerUnavailable]);
    actions.clear();
    s.transition_on_timer(at(1_800_000), &mut actions);
    assert!(!s.arm_retried);
}
