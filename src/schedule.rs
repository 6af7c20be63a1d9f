use vstd::prelude::*;
use crate::phase::Phase;

verus! {

/// Every this many completed focus sessions, the break is a long one.
pub const SESSIONS_PER_LONG_BREAK: u64 = 4;

/// The title of every phase-completion notification.
pub fn notification_title() -> (r: &'static str)
    ensures
        r@ == "Pomodoro"@,
{
    "Pomodoro"
}

/// The phase that follows `phase`, and the completed-session count after it.
pub open spec fn next_spec(phase: Phase, completed: nat) -> (Phase, nat) {
    match phase {
        Phase::Focus => if (completed + 1) % 4 == 0 {
            (Phase::LongBreak, completed + 1)
        } else {
            (Phase::ShortBreak, completed + 1)
        },
        _ => (Phase::Focus, completed),
    }
}

/// The break that follows the focus session completed after `completed` others.
pub open spec fn break_after(completed: nat) -> Phase {
    next_spec(Phase::Focus, completed).0
}

/// The notification text announcing that `entered` has begun.
pub open spec fn body_spec(entered: Phase) -> Seq<char> {
    if entered == Phase::Focus {
        "Get to Work!"@
    } else {
        "Phase Complete!"@
    }
}

/// The outcome of completing a phase.
pub struct Transition {
    pub phase: Phase,
    pub completed_focus_sessions: u64,
    pub body: &'static str,
}

/// Phase scheduler: the phase after `phase` completes, the new count of
/// completed focus sessions, and the notification text.
pub fn next_phase(phase: Phase, completed_focus_sessions: u64) -> (r: Transition)
    requires
        phase == Phase::Focus ==> completed_focus_sessions < u64::MAX,
    ensures
        (r.phase, r.completed_focus_sessions as nat) == next_spec(
            phase,
            completed_focus_sessions as nat,
        ),
        r.body@ == body_spec(r.phase),
{
    match phase {
        Phase::Focus => {
            let completed = completed_focus_sessions + 1;
            if completed % SESSIONS_PER_LONG_BREAK == 0 {
                Transition { phase: Phase::LongBreak, completed_focus_sessions: completed, body: "Phase Complete!" }
            } else {
                Transition { phase: Phase::ShortBreak, completed_focus_sessions: completed, body: "Phase Complete!" }
            }
        },
        _ => Transition {
            phase: Phase::Focus,
            completed_focus_sessions,
            body: "Get to Work!",
        },
    }
}

} // verus!
