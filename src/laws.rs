use vstd::prelude::*;
use crate::clock::SessionModel;
use crate::phase::Phase;
use crate::schedule::break_after;

verus! {

/// A running clock at the very start of a focus interval.
pub open spec fn fresh_focus(m: SessionModel) -> bool {
    &&& m.phase == Phase::Focus
    &&& m.running
    &&& m.remaining_seconds == m.config.spec_seconds_for(Phase::Focus)
    &&& m.interval_seconds == m.remaining_seconds
}

/// Ticking `a` times and then `b` times is ticking `a + b` times, and the
/// completions add up.
pub proof fn lemma_ticks_compose(m: SessionModel, a: nat, b: nat)
    ensures
        m.advanced_by(a + b) == m.advanced_by(a).advanced_by(b),
        m.completions_in(a + b) == m.completions_in(a) + m.advanced_by(a).completions_in(b),
    decreases a,
{
    if a > 0 {
        lemma_ticks_compose(m.advanced(), (a - 1) as nat, b);
        assert((a + b - 1) as nat == (a - 1) as nat + b);
    }
}

/// A running clock with at least `k` seconds left counts them down
/// one by one, and no phase ends on the way.
pub proof fn lemma_countdown(m: SessionModel, k: nat)
    requires
        m.running,
        k <= m.remaining_seconds,
    ensures
        m.advanced_by(k) == (SessionModel {
            remaining_seconds: (m.remaining_seconds - k) as nat,
            ..m
        }),
        m.completions_in(k) == 0,
    decreases k,
{
    if k > 0 {
        lemma_countdown(m.advanced(), (k - 1) as nat);
    }
}

/// From the start of a running focus interval, as many ticks as the
/// interval has seconds bring it to zero with no completion; the tick after
/// that is the one completion, which counts the focus session and starts
/// the break that the cadence gives, at its full length.
pub proof fn lemma_focus_interval_completes(m: SessionModel)
    requires
        m.wf(),
        fresh_focus(m),
        m.completed_focus_sessions < u64::MAX,
    ensures
        ({
            let n = m.config.spec_seconds_for(Phase::Focus);
            &&& m.completions_in(n) == 0
            &&& m.advanced_by(n).remaining_seconds == 0
            &&& m.advanced_by(n).phase == Phase::Focus
            &&& m.completions_in(n + 1) == 1
            &&& m.advanced_by(n + 1) == (SessionModel {
                phase: break_after(m.completed_focus_sessions),
                remaining_seconds: m.config.spec_seconds_for(break_after(m.completed_focus_sessions)),
                interval_seconds: m.config.spec_seconds_for(break_after(m.completed_focus_sessions)),
                completed_focus_sessions: m.completed_focus_sessions + 1,
                ..m
            })
        }),
{
    let n = m.config.spec_seconds_for(Phase::Focus);
    lemma_countdown(m, n);
    lemma_ticks_compose(m, n, 1);
    let z = m.advanced_by(n);
    assert(z.advanced_by(1) == z.advanced().advanced_by(0));
    assert(z.completions_in(1) == 1 + z.advanced().completions_in(0));
}

/// A whole cycle: from the start of a running focus interval, the focus
/// interval and the break after it take two completions and lead to the
/// start of the next focus interval, with one more session counted.
pub proof fn lemma_full_cycle(m: SessionModel)
    requires
        m.wf(),
        fresh_focus(m),
        m.completed_focus_sessions < u64::MAX,
    ensures
        ({
            let b = break_after(m.completed_focus_sessions);
            let n = m.config.spec_seconds_for(Phase::Focus) + 1 + m.config.spec_seconds_for(b) + 1;
            let e = m.advanced_by(n);
            &&& m.completions_in(n) == 2
            &&& fresh_focus(e)
            &&& e.completed_focus_sessions == m.completed_focus_sessions + 1
            &&& e.config == m.config
        }),
{
    let f = m.config.spec_seconds_for(Phase::Focus);
    let b = break_after(m.completed_focus_sessions);
    let s = m.config.spec_seconds_for(b);
    lemma_focus_interval_completes(m);
    let k = m.advanced_by(f + 1);
    lemma_countdown(k, s);
    lemma_ticks_compose(k, s, 1);
    let z = k.advanced_by(s);
    assert(z.advanced_by(1) == z.advanced().advanced_by(0));
    assert(z.completions_in(1) == 1 + z.advanced().completions_in(0));
    assert(b != Phase::Focus);
    lemma_ticks_compose(m, f + 1, s + 1);
    assert(f + 1 + s + 1 == (f + 1) + (s + 1));
}

/// The cadence of breaks: counting from a multiple of four, three short
/// breaks come, then a long one, and then a short one again.
pub proof fn lemma_break_cadence(c: nat)
    requires
        c % 4 == 0,
    ensures
        break_after(c) == Phase::ShortBreak,
        break_after(c + 1) == Phase::ShortBreak,
        break_after(c + 2) == Phase::ShortBreak,
        break_after(c + 3) == Phase::LongBreak,
        break_after(c + 4) == Phase::ShortBreak,
{
}

/// The number of ticks in the cycle that starts at `m`: its focus interval,
/// the completion, the break, and the completion of the break.
pub open spec fn cycle_ticks(m: SessionModel) -> nat {
    m.config.spec_seconds_for(Phase::Focus) + 1 + m.config.spec_seconds_for(
        break_after(m.completed_focus_sessions),
    ) + 1
}

/// The break that the cycle starting at `m` takes.
pub open spec fn cycle_break(m: SessionModel) -> Phase {
    m.advanced_by(m.config.spec_seconds_for(Phase::Focus) + 1).phase
}

/// The state after `k` whole cycles from `m`.
pub open spec fn after_cycles(m: SessionModel, k: nat) -> SessionModel
    decreases k,
{
    if k == 0 {
        m
    } else {
        after_cycles(m.advanced_by(cycle_ticks(m)), (k - 1) as nat)
    }
}

/// Running `k` whole cycles from the start of a focus interval counts `k`
/// sessions, ends at the start of a focus interval, and the break of the
/// `j`-th cycle is the one the cadence gives after `j` more sessions.
pub proof fn lemma_cycles(m: SessionModel, k: nat)
    requires
        m.wf(),
        fresh_focus(m),
        m.completed_focus_sessions + k <= u64::MAX,
    ensures
        after_cycles(m, k).wf(),
        fresh_focus(after_cycles(m, k)),
        after_cycles(m, k).completed_focus_sessions == m.completed_focus_sessions + k,
        after_cycles(m, k).config == m.config,
        forall|j: nat|
            j < k ==> #[trigger] cycle_break(after_cycles(m, j)) == break_after(
                m.completed_focus_sessions + j,
            ),
    decreases k,
{
    if k > 0 {
        lemma_full_cycle(m);
        lemma_focus_interval_completes(m);
        let next = m.advanced_by(cycle_ticks(m));
        lemma_cycles(next, (k - 1) as nat);
        assert forall|j: nat| j < k implies #[trigger] cycle_break(after_cycles(m, j)) == break_after(
            m.completed_focus_sessions + j,
        ) by {
            if j > 0 {
                assert(after_cycles(m, j) == after_cycles(next, (j - 1) as nat));
                assert(cycle_break(after_cycles(next, (j - 1) as nat)) == break_after(
                    next.completed_focus_sessions + (j - 1) as nat,
                ));
            }
        }
    }
}

/// Five whole cycles from a count that is a multiple of four take short,
/// short, short and long breaks, and then a short one again.
pub proof fn lemma_cadence_over_cycles(m: SessionModel)
    requires
        m.wf(),
        fresh_focus(m),
        m.completed_focus_sessions % 4 == 0,
        m.completed_focus_sessions + 5 <= u64::MAX,
    ensures
        cycle_break(after_cycles(m, 0)) == Phase::ShortBreak,
        cycle_break(after_cycles(m, 1)) == Phase::ShortBreak,
        cycle_break(after_cycles(m, 2)) == Phase::ShortBreak,
        cycle_break(after_cycles(m, 3)) == Phase::LongBreak,
        cycle_break(after_cycles(m, 4)) == Phase::ShortBreak,
{
    lemma_cycles(m, 5);
    lemma_break_cadence(m.completed_focus_sessions);
    assert(cycle_break(after_cycles(m, 0)) == break_after(m.completed_focus_sessions + 0));
    assert(cycle_break(after_cycles(m, 1)) == break_after(m.completed_focus_sessions + 1));
    assert(cycle_break(after_cycles(m, 2)) == break_after(m.completed_focus_sessions + 2));
    assert(cycle_break(after_cycles(m, 3)) == break_after(m.completed_focus_sessions + 3));
    assert(cycle_break(after_cycles(m, 4)) == break_after(m.completed_focus_sessions + 4));
}

/// Within a phase the fraction `remaining / interval` never grows, as the
/// interval stays and the remaining time only falls; on the tick that ends
/// a phase the fraction is back at one.
pub proof fn lemma_progress(m: SessionModel)
    requires
        m.wf(),
    ensures
        !m.completes_phase() ==> {
            &&& m.advanced().phase == m.phase
            &&& m.advanced().interval_seconds == m.interval_seconds
            &&& m.advanced().remaining_seconds <= m.remaining_seconds
        },
        m.completes_phase() ==> m.advanced().remaining_seconds == m.advanced().interval_seconds,
{
}

} // verus!
