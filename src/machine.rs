//! The phase state machine: Working and Breaking alternate on a single-shot
//! timer, and every transition tells the host what to do as a list of
//! actions.

use vstd::prelude::*;
use crate::config::Config;
use crate::i18n::LanguagePreference;
use crate::timefmt::Span;

verus! {

/// The largest clock reading, in milliseconds, that leaves room for a full
/// phase to be added to it.
pub const MAX_CLOCK_MILLIS: u64 = 18446744073695151615;

/// The length, in characters, of each spelling of the skip phrase.
pub const SKIP_PHRASE_LEN: usize = 29;

/// One of the two phases of the cycle.
#[derive(Clone, Copy, Debug, PartialEq, Eq, Structural)]
pub enum Phase {
    Working,
    Breaking,
}

/// What a phase transition announces.
#[derive(Clone, Copy, Debug, PartialEq, Eq, Structural)]
pub enum NotifyEvent {
    BreakStart,
    BreakEnd,
}

/// The cue the host plays.
#[derive(Clone, Copy, Debug, PartialEq, Eq, Structural)]
pub enum SoundType {
    BreakStart,
    BreakEnd,
}

/// A reading of both clocks, in milliseconds: a monotonic one from any
/// origin, and the wall clock since the Unix epoch.
#[derive(Clone, Copy, Debug, PartialEq, Eq, Structural)]
pub struct Now {
    pub mono_millis: u64,
    pub wall_millis: u64,
}

/// The end of the current phase on both clocks.  The monotonic one decides;
/// the wall one is for display.
#[derive(Clone, Copy, Debug, PartialEq, Eq, Structural)]
pub struct PhaseDeadline {
    pub mono_millis: u64,
    pub wall_millis: u64,
}

/// The countdown shown during a break.
#[derive(Clone, Copy, Debug, PartialEq, Eq, Structural)]
pub struct CountdownState {
    /// When the countdown reaches zero, on the monotonic clock.
    pub end_mono_millis: u64,
    /// Progress through the skip phrase written with a typographic apostrophe.
    pub skip_smart_idx: usize,
    /// Progress through the skip phrase written with an ASCII apostrophe.
    pub skip_ascii_idx: usize,
    /// A skip phrase was typed in full.
    pub skip_requested: bool,
}

/// What the host has to do after a call into the state machine, in order.
#[derive(Clone, Copy, Debug, PartialEq, Eq, Structural)]
pub enum Action {
    /// Cancel the pending phase timer, if any; it must not fire afterwards.
    CancelPhaseTimer,
    /// Arm the single-shot phase timer.
    ArmPhaseTimer { delay: Span, tolerance: Span },
    /// Recompute and push every displayed summary.
    Refresh,
    /// Close the countdown surface and stop its ticker.
    CloseCountdown,
    /// Open the countdown surface showing `seconds`, ticking every second.
    OpenCountdown { seconds: u64 },
    /// Show `remaining_secs` on the open countdown surface.
    UpdateCountdown { remaining_secs: u64 },
    PlaySound(SoundType),
    /// Tell the user, without blocking, that the phase timer could not be
    /// armed.
    WarnTimerUnavailable,
}

/// The whole mutable state of the application.
#[derive(Clone, Copy, Debug, PartialEq, Eq, Structural)]
pub struct AppState {
    pub config: Config,
    pub phase: Phase,
    /// Unset until the first phase is scheduled.
    pub deadline: Option<PhaseDeadline>,
    pub countdown: Option<CountdownState>,
    /// Arming the phase timer for the current phase has failed once and
    /// been retried.
    pub arm_retried: bool,
}

/// Both clocks leave room for a phase to be added.
pub open spec fn clock_ok(now: Now) -> bool {
    now.mono_millis <= MAX_CLOCK_MILLIS && now.wall_millis <= MAX_CLOCK_MILLIS
}

pub open spec fn opposite(p: Phase) -> Phase {
    match p {
        Phase::Working => Phase::Breaking,
        Phase::Breaking => Phase::Working,
    }
}

/// The event announced when `p` ends.
pub open spec fn leaving_event(p: Phase) -> NotifyEvent {
    match p {
        Phase::Working => NotifyEvent::BreakStart,
        Phase::Breaking => NotifyEvent::BreakEnd,
    }
}

/// The length of phase `p` under `c`, in milliseconds.
pub open spec fn phase_millis(c: Config, p: Phase) -> nat {
    match p {
        Phase::Working => c.work_millis(),
        Phase::Breaking => c.break_millis(),
    }
}

/// The firing tolerance of phase `p` under `c`, in milliseconds.
pub open spec fn tolerance_millis(c: Config, p: Phase) -> nat {
    match p {
        Phase::Working => c.work_tolerance_millis(),
        Phase::Breaking => c.break_tolerance_millis(),
    }
}

/// The state right after `p` is scheduled at `now`.
pub open spec fn scheduled(s: AppState, p: Phase, now: Now) -> AppState {
    AppState {
        phase: p,
        deadline: Some(
            PhaseDeadline {
                mono_millis: (now.mono_millis + phase_millis(s.config, p)) as u64,
                wall_millis: (now.wall_millis + phase_millis(s.config, p)) as u64,
            },
        ),
        arm_retried: false,
        ..s
    }
}

/// The actions that scheduling `p` under `c` emits.
pub open spec fn schedule_actions(c: Config, p: Phase) -> Seq<Action> {
    seq![
        Action::CancelPhaseTimer,
        Action::ArmPhaseTimer {
            delay: Span { millis: phase_millis(c, p) as u64 },
            tolerance: Span { millis: tolerance_millis(c, p) as u64 },
        },
        Action::Refresh,
    ]
}

/// A countdown of `seconds` started at `now`, with no skip progress.
pub open spec fn fresh_countdown(now: Now, seconds: nat) -> CountdownState {
    CountdownState {
        end_mono_millis: (now.mono_millis + seconds * 1000) as u64,
        skip_smart_idx: 0,
        skip_ascii_idx: 0,
        skip_requested: false,
    }
}

/// The state with the countdown opened for `seconds` at `now`.
pub open spec fn shown(s: AppState, seconds: nat, now: Now) -> AppState {
    AppState { countdown: Some(fresh_countdown(now, seconds)), ..s }
}

/// The actions that opening a countdown of `seconds` emits.
pub open spec fn show_actions(seconds: nat, play_start_sound: bool) -> Seq<Action> {
    if play_start_sound {
        seq![
            Action::CloseCountdown,
            Action::PlaySound(SoundType::BreakStart),
            Action::OpenCountdown { seconds: seconds as u64 },
        ]
    } else {
        seq![Action::CloseCountdown, Action::OpenCountdown { seconds: seconds as u64 }]
    }
}

/// The state with the countdown closed.
pub open spec fn closed(s: AppState) -> AppState {
    AppState { countdown: None, ..s }
}

/// The actions that finishing a countdown emits.
pub open spec fn finish_actions() -> Seq<Action> {
    seq![Action::CloseCountdown, Action::PlaySound(SoundType::BreakEnd)]
}

/// The state after `event` is announced at `now`.
pub open spec fn notified(s: AppState, event: NotifyEvent, now: Now) -> AppState {
    match event {
        NotifyEvent::BreakStart => shown(s, s.config.break_seconds as nat, now),
        NotifyEvent::BreakEnd => closed(s),
    }
}

/// The actions that announcing `event` under `c` emits.
pub open spec fn notify_actions(c: Config, event: NotifyEvent) -> Seq<Action> {
    match event {
        NotifyEvent::BreakStart => show_actions(c.break_seconds as nat, true),
        NotifyEvent::BreakEnd => finish_actions(),
    }
}

/// The state after the phase timer fires at `now`.
pub open spec fn fired(s: AppState, now: Now) -> AppState {
    scheduled(notified(s, leaving_event(s.phase), now), opposite(s.phase), now)
}

/// The actions emitted when the phase timer fires in state `s`.
pub open spec fn fired_actions(s: AppState) -> Seq<Action> {
    notify_actions(s.config, leaving_event(s.phase)) + schedule_actions(s.config, opposite(s.phase))
}

/// The monotonic time left in the current phase at `mono`, never negative.
pub open spec fn remaining_millis(s: AppState, mono: u64) -> nat {
    match s.deadline {
        Some(d) => if d.mono_millis > mono { (d.mono_millis - mono) as nat } else { 0 },
        None => 0,
    }
}

/// The countdown is open only during a break.
pub open spec fn countdown_only_while_breaking(s: AppState) -> bool {
    s.countdown is Some ==> s.phase == Phase::Breaking
}

/// The state after new settings `c` take effect at `now`.
pub open spec fn reconfigured(s: AppState, c: Config, now: Now) -> AppState {
    let t = scheduled(AppState { config: c, ..s }, s.phase, now);
    if s.phase == Phase::Breaking {
        shown(t, c.break_seconds as nat, now)
    } else {
        t
    }
}

/// The actions emitted when settings `c` take effect during phase `p`.
pub open spec fn reconfigure_actions(c: Config, p: Phase) -> Seq<Action> {
    if p == Phase::Breaking {
        schedule_actions(c, p) + show_actions(c.break_seconds as nat, false)
    } else {
        schedule_actions(c, p)
    }
}

/// The time until the next break starts, in milliseconds (saturating at
/// the largest `u64`).
pub open spec fn next_break_millis(s: AppState, mono: u64) -> nat {
    match s.phase {
        Phase::Working => remaining_millis(s, mono),
        Phase::Breaking => {
            let sum = remaining_millis(s, mono) + s.config.work_millis();
            if sum > u64::MAX { u64::MAX as nat } else { sum }
        },
    }
}

/// The wall-clock start of the next break, in milliseconds since the epoch.
pub open spec fn next_break_wall_millis(s: AppState) -> Option<u64> {
    match s.deadline {
        Some(d) => match s.phase {
            Phase::Working => Some(d.wall_millis),
            Phase::Breaking => if d.wall_millis + s.config.work_millis() <= u64::MAX {
                Some((d.wall_millis + s.config.work_millis()) as u64)
            } else {
                Some(d.wall_millis)
            },
        },
        None => None,
    }
}

/// A countdown is open at `mono` and has not run out.
pub open spec fn countdown_running(s: AppState, mono: u64) -> bool {
    s.countdown matches Some(c) && mono < c.end_mono_millis
}

/// The whole seconds left on countdown `c` at `mono`.
pub open spec fn countdown_secs_left(c: CountdownState, mono: u64) -> u64 {
    ((c.end_mono_millis - mono) / 1000) as u64
}

/// The state after a countdown tick at `mono`: a countdown that has run
/// out is closed.
pub open spec fn ticked(s: AppState, mono: u64) -> AppState {
    if s.countdown is Some && !countdown_running(s, mono) {
        closed(s)
    } else {
        s
    }
}

/// The actions of a countdown tick at `mono`: the seconds left while the
/// countdown runs, the finishing actions once it has run out.
pub open spec fn tick_actions(s: AppState, mono: u64) -> Seq<Action> {
    match s.countdown {
        Some(c) => if mono < c.end_mono_millis {
            seq![Action::UpdateCountdown { remaining_secs: countdown_secs_left(c, mono) }]
        } else {
            finish_actions()
        },
        None => Seq::empty(),
    }
}

/// The actions after the host failed to arm the phase timer at `mono`: one
/// retry for the time left in the phase, then a warning.
pub open spec fn arm_failed_actions(s: AppState, mono: u64) -> Seq<Action> {
    if s.arm_retried {
        seq![Action::WarnTimerUnavailable]
    } else {
        seq![
            Action::ArmPhaseTimer {
                delay: Span { millis: remaining_millis(s, mono) as u64 },
                tolerance: Span { millis: tolerance_millis(s.config, s.phase) as u64 },
            },
        ]
    }
}

/// The state at startup: working, with nothing scheduled yet.
pub open spec fn initial(config: Config) -> AppState {
    AppState { config, phase: Phase::Working, deadline: None, countdown: None, arm_retried: false }
}

/// The state that the phase timer reaches when it fires at each of `nows`
/// in turn, starting from `s`.
pub open spec fn fire_all(s: AppState, nows: Seq<Now>) -> AppState
    decreases nows.len(),
{
    if nows.len() == 0 {
        s
    } else {
        fired(fire_all(s, nows.drop_last()), nows.last())
    }
}

/// The fresh state for `config`, before the first phase is scheduled.
pub fn init_state(config: Config) -> (r: AppState)
    requires
        config.wf(),
    ensures
        r == initial(config),
        r.wf(),
{
    AppState { config, phase: Phase::Working, deadline: None, countdown: None, arm_retried: false }
}

/// Right after a phase is scheduled, and for as long as its timer may
/// still be held back by the tolerance, the time left is at most the
/// phase's length and more than that length minus the tolerance.
pub proof fn lemma_remaining_after_schedule(s: AppState, p: Phase, now: Now, query: u64)
    requires
        s.wf(),
        clock_ok(now),
        now.mono_millis <= query < now.mono_millis + tolerance_millis(s.config, p),
    ensures
        remaining_millis(scheduled(s, p, now), query) <= phase_millis(s.config, p),
        remaining_millis(scheduled(s, p, now), query) > phase_millis(s.config, p) - tolerance_millis(
            s.config,
            p,
        ),
{
}

/// Starting from work, the phase timer firing `n` times in a row leaves the
/// application working when `n` is even and on a break when `n` is odd.
pub proof fn lemma_phases_alternate(s: AppState, nows: Seq<Now>)
    requires
        s.phase == Phase::Working,
    ensures
        fire_all(s, nows).phase == (if nows.len() % 2 == 0 {
            Phase::Working
        } else {
            Phase::Breaking
        }),
    decreases nows.len(),
{
    if nows.len() > 0 {
        lemma_phases_alternate(s, nows.drop_last());
    }
}

impl AppState {
    /// The settings are in range and the skip progress lies within the
    /// phrases.
    pub open spec fn wf(&self) -> bool {
        &&& self.config.wf()
        &&& self.countdown matches Some(c) ==> c.skip_smart_idx <= SKIP_PHRASE_LEN && c.skip_ascii_idx
            <= SKIP_PHRASE_LEN
    }

    /// Cancels any pending phase timer, enters `phase`, sets its deadline
    /// to `now` plus its length, arms the timer with the phase's tolerance
    /// and asks for a refresh.
    pub fn schedule_phase(&mut self, phase: Phase, now: Now, actions: &mut Vec<Action>)
        requires
            old(self).wf(),
            clock_ok(now),
        ensures
            final(self).wf(),
            *final(self) == scheduled(*old(self), phase, now),
            final(actions)@ == old(actions)@ + schedule_actions(old(self).config, phase),
    {
        actions.push(Action::CancelPhaseTimer);
        self.phase = phase;
        self.arm_retried = false;
        let (duration, tolerance) = match phase {
            Phase::Working => (self.config.work_interval(), self.config.work_tolerance()),
            Phase::Breaking => (self.config.break_duration(), self.config.break_tolerance()),
        };
        self.deadline = Some(
            PhaseDeadline {
                mono_millis: now.mono_millis + duration.millis,
                wall_millis: now.wall_millis + duration.millis,
            },
        );
        actions.push(Action::ArmPhaseTimer { delay: duration, tolerance });
        actions.push(Action::Refresh);
        assert(final(actions)@ =~= old(actions)@ + schedule_actions(old(self).config, phase));
    }

    /// Closes the countdown, if one is open.
    pub fn close_countdown_window(&mut self, actions: &mut Vec<Action>)
        requires
            old(self).wf(),
        ensures
            final(self).wf(),
            *final(self) == closed(*old(self)),
            final(actions)@ == old(actions)@.push(Action::CloseCountdown),
    {
        self.countdown = None;
        actions.push(Action::CloseCountdown);
    }

    /// Closes the countdown and plays the end-of-break cue.
    pub fn finish_countdown(&mut self, actions: &mut Vec<Action>)
        requires
            old(self).wf(),
        ensures
            final(self).wf(),
            *final(self) == closed(*old(self)),
            final(actions)@ == old(actions)@ + finish_actions(),
    {
        self.close_countdown_window(actions);
        actions.push(Action::PlaySound(SoundType::BreakEnd));
        assert(final(actions)@ =~= old(actions)@ + finish_actions());
    }

    /// Replaces any open countdown with a new one of `seconds` from `now`,
    /// playing the start cue first when asked to.
    pub fn show_countdown_window(
        &mut self,
        seconds: u64,
        play_start_sound: bool,
        now: Now,
        actions: &mut Vec<Action>,
    )
        requires
            old(self).wf(),
            clock_ok(now),
            seconds <= Config::MAX_BREAK_SECONDS,
        ensures
            final(self).wf(),
            *final(self) == shown(*old(self), seconds as nat, now),
            final(actions)@ == old(actions)@ + show_actions(seconds as nat, play_start_sound),
    {
        self.close_countdown_window(actions);
        if play_start_sound {
            actions.push(Action::PlaySound(SoundType::BreakStart));
        }
        self.countdown = Some(
            CountdownState {
                end_mono_millis: now.mono_millis + seconds * 1000,
                skip_smart_idx: 0,
                skip_ascii_idx: 0,
                skip_requested: false,
            },
        );
        actions.push(Action::OpenCountdown { seconds });
        assert(final(actions)@ =~= old(actions)@ + show_actions(seconds as nat, play_start_sound));
    }

    /// Announces `event`: a break start opens the countdown with its cue, a
    /// break end closes it with its cue.
    pub fn notify(&mut self, event: NotifyEvent, now: Now, actions: &mut Vec<Action>)
        requires
            old(self).wf(),
            clock_ok(now),
        ensures
            final(self).wf(),
            *final(self) == notified(*old(self), event, now),
            final(actions)@ == old(actions)@ + notify_actions(old(self).config, event),
    {
        match event {
            NotifyEvent::BreakStart => {
                let seconds = self.config.break_seconds;
                self.show_countdown_window(seconds, true, now, actions);
            },
            NotifyEvent::BreakEnd => {
                self.finish_countdown(actions);
            },
        }
    }

    /// The phase timer fired: announce the end of the current phase and
    /// schedule the other one.
    pub fn transition_on_timer(&mut self, now: Now, actions: &mut Vec<Action>)
        requires
            old(self).wf(),
            clock_ok(now),
        ensures
            final(self).wf(),
            *final(self) == fired(*old(self), now),
            final(self).phase == opposite(old(self).phase),
            final(actions)@ == old(actions)@ + fired_actions(*old(self)),
            countdown_only_while_breaking(*final(self)),
    {
        let (next_phase, event) = match self.phase {
            Phase::Working => (Phase::Breaking, NotifyEvent::BreakStart),
            Phase::Breaking => (Phase::Working, NotifyEvent::BreakEnd),
        };
        self.notify(event, now, actions);
        self.schedule_phase(next_phase, now, actions);
        assert(final(actions)@ =~= old(actions)@ + fired_actions(*old(self)));
    }

    /// Starts a break at once; does nothing during a break.
    pub fn start_break_now(&mut self, now: Now, actions: &mut Vec<Action>)
        requires
            old(self).wf(),
            clock_ok(now),
        ensures
            final(self).wf(),
            old(self).phase == Phase::Working ==> {
                &&& *final(self) == fired(*old(self), now)
                &&& final(actions)@ == old(actions)@ + fired_actions(*old(self))
            },
            old(self).phase == Phase::Breaking ==> {
                &&& *final(self) == *old(self)
                &&& final(actions)@ == old(actions)@
            },
            final(self).phase == Phase::Breaking,
    {
        if self.phase == Phase::Working {
            self.notify(NotifyEvent::BreakStart, now, actions);
            self.schedule_phase(Phase::Breaking, now, actions);
            assert(final(actions)@ =~= old(actions)@ + fired_actions(*old(self)));
        }
    }

    /// Ends a break early: closes the countdown with its cue and schedules
    /// work; does nothing during work.
    pub fn skip_break(&mut self, now: Now, actions: &mut Vec<Action>)
        requires
            old(self).wf(),
            clock_ok(now),
        ensures
            final(self).wf(),
            old(self).phase == Phase::Breaking ==> {
                &&& *final(self) == fired(*old(self), now)
                &&& final(actions)@ == old(actions)@ + fired_actions(*old(self))
            },
            old(self).phase == Phase::Working ==> {
                &&& *final(self) == *old(self)
                &&& final(actions)@ == old(actions)@
            },
            final(self).phase == Phase::Working,
            old(self).phase == Phase::Breaking ==> final(self).countdown is None,
    {
        if self.phase == Phase::Breaking {
            self.finish_countdown(actions);
            self.schedule_phase(Phase::Working, now, actions);
            assert(final(actions)@ =~= old(actions)@ + fired_actions(*old(self)));
        }
    }

    /// Takes new settings that apply from `now`: the current phase is
    /// scheduled again with the new length, and during a break the
    /// countdown restarts with the new break length, without the start cue.
    pub fn apply_new_config(&mut self, config: Config, now: Now, actions: &mut Vec<Action>)
        requires
            old(self).wf(),
            config.wf(),
            clock_ok(now),
        ensures
            final(self).wf(),
            *final(self) == reconfigured(*old(self), config, now),
            final(actions)@ == old(actions)@ + reconfigure_actions(config, old(self).phase),
            final(self).phase == old(self).phase,
            old(self).phase == Phase::Breaking ==> {
                &&& final(self).deadline == Some(
                    PhaseDeadline {
                        mono_millis: (now.mono_millis + config.break_millis()) as u64,
                        wall_millis: (now.wall_millis + config.break_millis()) as u64,
                    },
                )
                &&& final(self).countdown == Some(fresh_countdown(now, config.break_seconds as nat))
            },
    {
        self.config = config;
        let phase = self.phase;
        self.schedule_phase(phase, now, actions);
        if phase == Phase::Breaking {
            self.show_countdown_window(config.break_seconds, false, now, actions);
        }
        assert(final(actions)@ =~= old(actions)@ + reconfigure_actions(config, old(self).phase));
    }

    /// Switches the interface language and asks for a refresh.
    pub fn set_language(&mut self, language: LanguagePreference, actions: &mut Vec<Action>)
        requires
            old(self).wf(),
        ensures
            final(self).wf(),
            *final(self) == (AppState {
                config: Config { language, ..old(self).config },
                ..*old(self)
            }),
            final(actions)@ == old(actions)@.push(Action::Refresh),
    {
        self.config.language = language;
        actions.push(Action::Refresh);
    }

    /// The monotonic time left in the current phase at `now`; zero once the
    /// deadline has passed or before any phase is scheduled.
    pub fn remaining(&self, now: Now) -> (r: Span)
        ensures
            r.millis == remaining_millis(*self, now.mono_millis),
    {
        match self.deadline {
            Some(d) => Span::from_millis(d.mono_millis.saturating_sub(now.mono_millis)),
            None => Span::from_millis(0),
        }
    }

    /// How long until the next break starts: the time left during work, and
    /// during a break the time left plus a full work phase.
    pub fn next_break_in(&self, now: Now) -> (r: Span)
        requires
            self.wf(),
        ensures
            r.millis == next_break_millis(*self, now.mono_millis),
    {
        let left = self.remaining(now);
        match self.phase {
            Phase::Working => left,
            Phase::Breaking => Span::from_millis(
                left.millis.saturating_add(self.config.work_interval().millis),
            ),
        }
    }

    /// The wall-clock end of the current phase, if one is scheduled.
    pub fn phase_end_wall(&self) -> (r: Option<u64>)
        ensures
            r == (match self.deadline {
                Some(d) => Some(d.wall_millis),
                None => None::<u64>,
            }),
    {
        match self.deadline {
            Some(d) => Some(d.wall_millis),
            None => None,
        }
    }

    /// The wall-clock time at which the next break starts, if a phase is
    /// scheduled: the deadline during work, and during a break the deadline
    /// plus a full work phase (the deadline alone where that sum would not
    /// fit).
    pub fn next_break_wall(&self) -> (r: Option<u64>)
        requires
            self.wf(),
        ensures
            r == next_break_wall_millis(*self),
    {
        match self.deadline {
            Some(d) => match self.phase {
                Phase::Working => Some(d.wall_millis),
                Phase::Breaking => match d.wall_millis.checked_add(self.config.work_interval().millis) {
                    Some(w) => Some(w),
                    None => Some(d.wall_millis),
                },
            },
            None => None,
        }
    }

    /// The manual break action is offered during work only.
    pub fn rest_now_enabled(&self) -> (r: bool)
        ensures
            r == (self.phase == Phase::Working),
    {
        self.phase == Phase::Working
    }

    /// On a countdown tick at `now`: while the countdown runs, asks the
    /// host to show the whole seconds left and returns `true`; returns
    /// `false` once it has run out or when none is open.
    pub fn update_countdown(&self, now: Now, actions: &mut Vec<Action>) -> (r: bool)
        ensures
            r == countdown_running(*self, now.mono_millis),
            r ==> final(actions)@ == old(actions)@.push(
                Action::UpdateCountdown {
                    remaining_secs: countdown_secs_left(self.countdown->Some_0, now.mono_millis),
                },
            ),
            !r ==> final(actions)@ == old(actions)@,
    {
        match self.countdown {
            Some(c) => {
                if now.mono_millis >= c.end_mono_millis {
                    false
                } else {
                    actions.push(
                        Action::UpdateCountdown {
                            remaining_secs: (c.end_mono_millis - now.mono_millis) / 1000,
                        },
                    );
                    true
                }
            },
            None => false,
        }
    }

    /// The one-second countdown tick: shows the time left, or finishes the
    /// countdown once it has run out.  The phase itself ends only when the
    /// phase timer fires.
    pub fn countdown_tick(&mut self, now: Now, actions: &mut Vec<Action>)
        requires
            old(self).wf(),
        ensures
            final(self).wf(),
            *final(self) == ticked(*old(self), now.mono_millis),
            final(actions)@ == old(actions)@ + tick_actions(*old(self), now.mono_millis),
    {
        if self.countdown.is_none() {
            return;
        }
        if !self.update_countdown(now, actions) {
            self.finish_countdown(actions);
        }
        assert(final(actions)@ =~= old(actions)@ + tick_actions(*old(self), now.mono_millis));
    }

    /// The host could not arm the phase timer: the first time in a phase,
    /// try once more for the time left; after that, warn.
    pub fn on_arm_failed(&mut self, now: Now, actions: &mut Vec<Action>)
        requires
            old(self).wf(),
        ensures
            final(self).wf(),
            *final(self) == (AppState { arm_retried: true, ..*old(self) }),
            final(actions)@ == old(actions)@ + arm_failed_actions(*old(self), now.mono_millis),
    {
        if self.arm_retried {
            actions.push(Action::WarnTimerUnavailable);
        } else {
            let tolerance = match self.phase {
                Phase::Working => self.config.work_tolerance(),
                Phase::Breaking => self.config.break_tolerance(),
            };
            let delay = self.remaining(now);
            actions.push(Action::ArmPhaseTimer { delay, tolerance });
            self.arm_retried = true;
        }
        assert(final(actions)@ =~= old(actions)@ + arm_failed_actions(*old(self), now.mono_millis));
    }
}

} // verus!
