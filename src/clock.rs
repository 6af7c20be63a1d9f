use vstd::prelude::*;
use crate::config::{Configuration, MAX_MINUTES};
use crate::display::{clock_text, format_clock};
use crate::phase::Phase;
use crate::schedule::{body_spec, next_phase, next_spec, notification_title};

verus! {

/// The abstract state of the session clock.
pub struct SessionModel {
    pub phase: Phase,
    pub remaining_seconds: nat,
    /// The full length of the current interval, fixed when it began.
    pub interval_seconds: nat,
    pub completed_focus_sessions: nat,
    pub running: bool,
    pub config: Configuration,
}

impl SessionModel {
    pub open spec fn wf(self) -> bool {
        &&& self.config.wf()
        &&& 0 < self.interval_seconds <= MAX_MINUTES * 60
        &&& self.remaining_seconds <= self.interval_seconds
        &&& self.completed_focus_sessions <= u64::MAX
    }

    /// The state at start-up: a full focus interval, not running.
    pub open spec fn initial(config: Configuration) -> SessionModel {
        SessionModel {
            phase: Phase::Focus,
            remaining_seconds: config.spec_seconds_for(Phase::Focus),
            interval_seconds: config.spec_seconds_for(Phase::Focus),
            completed_focus_sessions: 0,
            running: false,
            config,
        }
    }

    /// Whether the next tick ends the current phase.
    pub open spec fn completes_phase(self) -> bool {
        self.running && self.remaining_seconds == 0
    }

    /// The state after one tick.
    pub open spec fn advanced(self) -> SessionModel {
        if !self.running {
            self
        } else if self.remaining_seconds > 0 {
            SessionModel { remaining_seconds: (self.remaining_seconds - 1) as nat, ..self }
        } else {
            let (phase, completed) = next_spec(self.phase, self.completed_focus_sessions);
            let full = self.config.spec_seconds_for(phase);
            SessionModel {
                phase,
                remaining_seconds: full,
                interval_seconds: full,
                completed_focus_sessions: completed,
                ..self
            }
        }
    }

    /// The state after `n` ticks.
    pub open spec fn advanced_by(self, n: nat) -> SessionModel
        decreases n,
    {
        if n == 0 {
            self
        } else {
            self.advanced().advanced_by((n - 1) as nat)
        }
    }

    /// How many of the next `n` ticks end a phase.
    pub open spec fn completions_in(self, n: nat) -> nat
        decreases n,
    {
        if n == 0 {
            0
        } else {
            (if self.completes_phase() { 1nat } else { 0nat }) + self.advanced().completions_in(
                (n - 1) as nat,
            )
        }
    }

    /// The state after a reset: a full focus interval, not running.
    pub open spec fn reset(self) -> SessionModel {
        SessionModel {
            phase: Phase::Focus,
            remaining_seconds: self.config.spec_seconds_for(Phase::Focus),
            interval_seconds: self.config.spec_seconds_for(Phase::Focus),
            running: false,
            ..self
        }
    }

    /// The state after new durations are set. A paused clock restarts the
    /// current phase at its new length; a running one keeps its interval.
    pub open spec fn configured(self, config: Configuration) -> SessionModel {
        if self.running {
            SessionModel { config, ..self }
        } else {
            SessionModel {
                remaining_seconds: config.spec_seconds_for(self.phase),
                interval_seconds: config.spec_seconds_for(self.phase),
                config,
                ..self
            }
        }
    }
}

/// What the front end does when a phase ends: play the alarm and post a
/// notification announcing the phase that began.
pub struct CompletionEffect {
    pub phase: Phase,
    pub alarm_path: String,
    pub title: &'static str,
    pub body: &'static str,
}

/// The session clock: the one owner of the timer state.
pub struct SessionState {
    phase: Phase,
    remaining_seconds: u32,
    interval_seconds: u32,
    completed_focus_sessions: u64,
    running: bool,
    config: Configuration,
}

impl View for SessionState {
    type V = SessionModel;

    closed spec fn view(&self) -> SessionModel {
        SessionModel {
            phase: self.phase,
            remaining_seconds: self.remaining_seconds as nat,
            interval_seconds: self.interval_seconds as nat,
            completed_focus_sessions: self.completed_focus_sessions as nat,
            running: self.running,
            config: self.config,
        }
    }
}

impl SessionState {
    pub open spec fn wf(&self) -> bool {
        self@.wf()
    }

    /// A clock at the start of a focus interval, not running.
    pub fn new(config: Configuration) -> (r: SessionState)
        requires
            config.wf(),
        ensures
            r.wf(),
            r@ == SessionModel::initial(config),
    {
        let full = config.seconds_for(Phase::Focus);
        SessionState {
            phase: Phase::Focus,
            remaining_seconds: full,
            interval_seconds: full,
            completed_focus_sessions: 0,
            running: false,
            config,
        }
    }

    /// One tick. A paused clock does not change. A running one counts down
    /// a second, or, at zero, moves to the next phase at its full length and
    /// returns the effect of the completion.
    pub fn advance(&mut self) -> (r: Option<CompletionEffect>)
        requires
            old(self).wf(),
            old(self)@.completed_focus_sessions < u64::MAX,
        ensures
            final(self).wf(),
            final(self)@ == old(self)@.advanced(),
            r is Some <==> old(self)@.completes_phase(),
            r matches Some(e) ==> {
                &&& e.phase == final(self)@.phase
                &&& e.alarm_path == old(self)@.config.alarm_path
                &&& e.title@ == "Pomodoro"@
                &&& e.body@ == body_spec(e.phase)
            },
    {
        if !self.running {
            return None;
        }
        if self.remaining_seconds > 0 {
            self.remaining_seconds = self.remaining_seconds - 1;
            return None;
        }
        let t = next_phase(self.phase, self.completed_focus_sessions);
        let full = self.config.seconds_for(t.phase);
        self.phase = t.phase;
        self.completed_focus_sessions = t.completed_focus_sessions;
        self.remaining_seconds = full;
        self.interval_seconds = full;
        Some(
            CompletionEffect {
                phase: t.phase,
                alarm_path: self.config.alarm_path.clone(),
                title: notification_title(),
                body: t.body,
            },
        )
    }

    /// Starts a paused clock or pauses a running one.
    pub fn toggle_running(&mut self)
        requires
            old(self).wf(),
        ensures
            final(self).wf(),
            final(self)@ == (SessionModel { running: !old(self)@.running, ..old(self)@ }),
    {
        self.running = !self.running;
    }

    /// Abandons the current interval: a full focus interval, paused. The
    /// count of completed focus sessions is kept.
    pub fn reset(&mut self)
        requires
            old(self).wf(),
        ensures
            final(self).wf(),
            final(self)@ == old(self)@.reset(),
    {
        let full = self.config.seconds_for(Phase::Focus);
        self.phase = Phase::Focus;
        self.remaining_seconds = full;
        self.interval_seconds = full;
        self.running = false;
    }

    /// Sets new durations. A paused clock restarts the current phase at its
    /// new length; a running one uses them from the next phase on.
    pub fn configure(&mut self, config: Configuration)
        requires
            old(self).wf(),
            config.wf(),
        ensures
            final(self).wf(),
            final(self)@ == old(self)@.configured(config),
    {
        if !self.running {
            let full = config.seconds_for(self.phase);
            self.remaining_seconds = full;
            self.interval_seconds = full;
        }
        self.config = config;
    }

    /// Sets the sound played when a phase ends.
    pub fn set_alarm_path(&mut self, alarm_path: String)
        requires
            old(self).wf(),
        ensures
            final(self).wf(),
            final(self)@ == (SessionModel {
                config: Configuration { alarm_path, ..old(self)@.config },
                ..old(self)@
            }),
    {
        self.config.alarm_path = alarm_path;
    }

    pub fn phase(&self) -> (r: Phase)
        ensures
            r == self@.phase,
    {
        self.phase
    }

    pub fn remaining_seconds(&self) -> (r: u32)
        ensures
            r as nat == self@.remaining_seconds,
    {
        self.remaining_seconds
    }

    pub fn completed_focus_sessions(&self) -> (r: u64)
        ensures
            r as nat == self@.completed_focus_sessions,
    {
        self.completed_focus_sessions
    }

    pub fn is_running(&self) -> (r: bool)
        ensures
            r == self@.running,
    {
        self.running
    }

    pub fn config(&self) -> (r: &Configuration)
        ensures
            *r == self@.config,
    {
        &self.config
    }

    /// The progress through the current interval as the fraction
    /// `remaining / total`, returned as the pair `(remaining, total)`.
    pub fn progress(&self) -> (r: (u32, u32))
        requires
            self.wf(),
        ensures
            r.0 as nat == self@.remaining_seconds,
            r.1 as nat == self@.interval_seconds,
            0 < r.1,
            r.0 <= r.1,
    {
        (self.remaining_seconds, self.interval_seconds)
    }

    /// The time left in the current interval, as `MM:SS`.
    pub fn timer_text(&self) -> (r: String)
        ensures
            r@ == clock_text(self@.remaining_seconds),
    {
        format_clock(self.remaining_seconds)
    }
}

} // verus!
