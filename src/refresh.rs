//! The summaries the host displays, recomputed from the state on demand.

use vstd::prelude::*;
use crate::i18n::{resolved, Language};
use crate::machine::{
    next_break_millis, next_break_wall_millis, remaining_millis, AppState, Now, Phase,
};
use crate::texts::{
    header_title_text, next_break_title_text, pick, remaining_title_breaking_text, Texts,
};
use crate::timefmt::{approx_duration, approx_text, format_hhmm, hhmm_text};

verus! {

/// `HH:MM` of a wall-clock instant, or `--:--` when there is none.
pub open spec fn hm_or_dashes(wall: Option<u64>, utc_offset_secs: i32) -> Seq<char> {
    match wall {
        Some(w) => hhmm_text((w / 1000) as int + utc_offset_secs as int),
        None => "--:--"@,
    }
}

/// The end of the current phase on the wall clock, if one is scheduled.
pub open spec fn phase_end_wall_millis(s: AppState) -> Option<u64> {
    match s.deadline {
        Some(d) => Some(d.wall_millis),
        None => None,
    }
}

/// The status indicator's title: the time of the next break during work,
/// the approximate time left during a break.
pub open spec fn status_text(s: AppState, mono: u64, utc_offset_secs: i32) -> Seq<char> {
    match s.phase {
        Phase::Working => "⏰ "@ + hm_or_dashes(phase_end_wall_millis(s), utc_offset_secs),
        Phase::Breaking => "☕ "@ + approx_text(remaining_millis(s, mono) / 1000),
    }
}

/// The menu line about the next break.
pub open spec fn next_break_text(s: AppState, mono: u64, lang: Language, utc_offset_secs: i32) -> Seq<
    char,
> {
    next_break_title_text(
        lang,
        hm_or_dashes(next_break_wall_millis(s), utc_offset_secs),
        approx_text(next_break_millis(s, mono) / 1000),
    )
}

/// The menu line about the time left in the break; a dash during work.
pub open spec fn remaining_text(s: AppState, mono: u64, lang: Language, utc_offset_secs: i32) -> Seq<
    char,
> {
    match s.phase {
        Phase::Working => pick(lang, "Break remaining: —"@, "休息剩余：—"@),
        Phase::Breaking => remaining_title_breaking_text(
            lang,
            approx_text(remaining_millis(s, mono) / 1000),
            hm_or_dashes(phase_end_wall_millis(s), utc_offset_secs),
        ),
    }
}

/// Everything one refresh pushes to the display.
pub struct Summary {
    pub status_title: String,
    pub header_title: String,
    pub next_break_title: String,
    pub remaining_title: String,
    pub rest_now_enabled: bool,
}

fn hm_text(wall: Option<u64>, utc_offset_secs: i32) -> (r: String)
    ensures
        r@ == hm_or_dashes(wall, utc_offset_secs),
{
    match wall {
        Some(w) => format_hhmm(w, utc_offset_secs),
        None => String::from_str("--:--"),
    }
}

impl AppState {
    /// The status indicator's title at `now`, wall-clock times shown
    /// `utc_offset_secs` seconds east of UTC.
    pub fn status_title(&self, now: Now, utc_offset_secs: i32) -> (r: String)
        ensures
            r@ == status_text(*self, now.mono_millis, utc_offset_secs),
    {
        let mut s = String::new();
        match self.phase {
            Phase::Working => {
                s.append("⏰ ");
                let hm = hm_text(self.phase_end_wall(), utc_offset_secs);
                s.append(hm.as_str());
            },
            Phase::Breaking => {
                s.append("☕ ");
                let approx = approx_duration(self.remaining(now));
                s.append(approx.as_str());
            },
        }
        s
    }

    /// The menu header: the schedule in the interface language.
    pub fn header_title(&self, system: Language) -> (r: String)
        ensures
            r@ == header_title_text(
                resolved(self.config.language, system),
                self.config.interval_minutes,
                self.config.break_seconds,
            ),
    {
        let texts = Texts::new(self.config.effective_language(system));
        texts.header_title(self.config.interval_minutes, self.config.break_seconds)
    }

    /// The menu line about the next break at `now`.
    pub fn next_break_title(&self, now: Now, system: Language, utc_offset_secs: i32) -> (r: String)
        requires
            self.wf(),
        ensures
            r@ == next_break_text(
                *self,
                now.mono_millis,
                resolved(self.config.language, system),
                utc_offset_secs,
            ),
    {
        let texts = Texts::new(self.config.effective_language(system));
        let hm = hm_text(self.next_break_wall(), utc_offset_secs);
        let approx = approx_duration(self.next_break_in(now));
        texts.next_break_title(hm.as_str(), approx.as_str())
    }

    /// The menu line about the time left in the break at `now`.
    pub fn remaining_title(&self, now: Now, system: Language, utc_offset_secs: i32) -> (r: String)
        ensures
            r@ == remaining_text(
                *self,
                now.mono_millis,
                resolved(self.config.language, system),
                utc_offset_secs,
            ),
    {
        let texts = Texts::new(self.config.effective_language(system));
        match self.phase {
            Phase::Working => String::from_str(texts.remaining_title_working()),
            Phase::Breaking => {
                let approx = approx_duration(self.remaining(now));
                let end_hm = hm_text(self.phase_end_wall(), utc_offset_secs);
                texts.remaining_title_breaking(approx.as_str(), end_hm.as_str())
            },
        }
    }

    /// Everything a refresh at `now` displays.
    pub fn summary(&self, now: Now, system: Language, utc_offset_secs: i32) -> (r: Summary)
        requires
            self.wf(),
        ensures
            r.status_title@ == status_text(*self, now.mono_millis, utc_offset_secs),
            r.header_title@ == header_title_text(
                resolved(self.config.language, system),
                self.config.interval_minutes,
                self.config.break_seconds,
            ),
            r.next_break_title@ == next_break_text(
                *self,
                now.mono_millis,
                resolved(self.config.language, system),
                utc_offset_secs,
            ),
            r.remaining_title@ == remaining_text(
                *self,
                now.mono_millis,
                resolved(self.config.language, system),
                utc_offset_secs,
            ),
            r.rest_now_enabled == (self.phase == Phase::Working),
    {
        Summary {
            status_title: self.status_title(now, utc_offset_secs),
            header_title: self.header_title(system),
            next_break_title: self.next_break_title(now, system, utc_offset_secs),
            remaining_title: self.remaining_title(now, system, utc_offset_secs),
            rest_now_enabled: self.rest_now_enabled(),
        }
    }
}

} // verus!
