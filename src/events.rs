//! One entry point for everything the host reports.

use vstd::prelude::*;
use crate::config::Config;
use crate::countdown::{keyed, requests_skip};
use crate::i18n::LanguagePreference;
use crate::machine::{
    arm_failed_actions, clock_ok, countdown_only_while_breaking, fired, fired_actions,
    reconfigure_actions, reconfigured, schedule_actions, scheduled,
    tick_actions, ticked, Action, AppState, Now, Phase,
};

verus! {

/// Something that happened on the host's side.
#[derive(Clone, Copy, Debug, PartialEq, Eq, Structural)]
pub enum Event {
    /// The application has started: the first work phase begins.
    Launched,
    /// The single-shot phase timer fired.
    PhaseTimerFired,
    /// The countdown's one-second ticker fired.
    CountdownTick,
    /// The user chose to rest now.
    RestNow,
    /// The user asked to end the break.
    SkipBreak,
    /// A character was typed on the countdown surface.
    CountdownChar(char),
    /// The user saved new settings, already in range.
    NewConfig(Config),
    /// The user chose an interface language.
    NewLanguage(LanguagePreference),
    /// A menu or status surface is about to be shown.
    MenuOpened,
    /// The host failed to arm the phase timer it was asked to arm.
    PhaseTimerArmFailed,
}

/// The state after `e` at `now`.
pub open spec fn handled(s: AppState, e: Event, now: Now) -> AppState {
    match e {
        Event::Launched => scheduled(s, Phase::Working, now),
        Event::PhaseTimerFired => fired(s, now),
        Event::CountdownTick => ticked(s, now.mono_millis),
        Event::RestNow => if s.phase == Phase::Working { fired(s, now) } else { s },
        Event::SkipBreak => if s.phase == Phase::Breaking { fired(s, now) } else { s },
        Event::CountdownChar(ch) => {
            let t = keyed(s, ch);
            if requests_skip(s, ch) && t.phase == Phase::Breaking {
                fired(t, now)
            } else {
                t
            }
        },
        Event::NewConfig(c) => reconfigured(s, c, now),
        Event::NewLanguage(l) => AppState { config: Config { language: l, ..s.config }, ..s },
        Event::MenuOpened => s,
        Event::PhaseTimerArmFailed => AppState { arm_retried: true, ..s },
    }
}

/// The actions emitted for `e` at `now`.
pub open spec fn handled_actions(s: AppState, e: Event, now: Now) -> Seq<Action> {
    match e {
        Event::Launched => schedule_actions(s.config, Phase::Working),
        Event::PhaseTimerFired => fired_actions(s),
        Event::CountdownTick => tick_actions(s, now.mono_millis),
        Event::RestNow => if s.phase == Phase::Working { fired_actions(s) } else { Seq::empty() },
        Event::SkipBreak => if s.phase == Phase::Breaking {
            fired_actions(s)
        } else {
            Seq::empty()
        },
        Event::CountdownChar(ch) => {
            let t = keyed(s, ch);
            if requests_skip(s, ch) && t.phase == Phase::Breaking {
                fired_actions(t)
            } else {
                Seq::empty()
            }
        },
        Event::NewConfig(c) => reconfigure_actions(c, s.phase),
        Event::NewLanguage(_) => seq![Action::Refresh],
        Event::MenuOpened => seq![Action::Refresh],
        Event::PhaseTimerArmFailed => arm_failed_actions(s, now.mono_millis),
    }
}

impl AppState {
    /// Dispatches `e`, which happened at `now`, to the transition it calls
    /// for, and appends what the host has to do to `actions`.
    pub fn handle(&mut self, e: Event, now: Now, actions: &mut Vec<Action>)
        requires
            old(self).wf(),
            clock_ok(now),
            e matches Event::NewConfig(c) ==> c.wf(),
        ensures
            final(self).wf(),
            *final(self) == handled(*old(self), e, now),
            final(actions)@ == old(actions)@ + handled_actions(*old(self), e, now),
    {
        match e {
            Event::Launched => self.schedule_phase(Phase::Working, now, actions),
            Event::PhaseTimerFired => self.transition_on_timer(now, actions),
            Event::CountdownTick => self.countdown_tick(now, actions),
            Event::RestNow => {
                self.start_break_now(now, actions);
                assert(final(actions)@ =~= old(actions)@ + handled_actions(*old(self), e, now));
            },
            Event::SkipBreak => {
                self.skip_break(now, actions);
                assert(final(actions)@ =~= old(actions)@ + handled_actions(*old(self), e, now));
            },
            Event::CountdownChar(ch) => {
                if self.on_countdown_char(ch) {
                    self.skip_break(now, actions);
                }
                assert(final(actions)@ =~= old(actions)@ + handled_actions(*old(self), e, now));
            },
            Event::NewConfig(c) => self.apply_new_config(c, now, actions),
            Event::NewLanguage(l) => self.set_language(l, actions),
            Event::MenuOpened => actions.push(Action::Refresh),
            Event::PhaseTimerArmFailed => self.on_arm_failed(now, actions),
        }
    }
}

/// Every event keeps the countdown confined to breaks: it is open only
/// while the phase is Breaking, and torn down whenever a break ends, by the
/// timer or by a skip.  The application is launched with no countdown open.
pub proof fn lemma_countdown_only_while_breaking(s: AppState, e: Event, now: Now)
    requires
        countdown_only_while_breaking(s),
        e == Event::Launched ==> s.countdown is None,
    ensures
        countdown_only_while_breaking(handled(s, e, now)),
{
}

} // verus!
