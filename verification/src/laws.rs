//! Laws of the timer state machine, each proved over the spec-level
//! transitions that the executable methods are specified against.

use vstd::prelude::*;
use crate::timer::Timer;

verus! {

/// While running, elapsed time never decreases as the clock advances.
pub proof fn lemma_elapsed_monotonic(t: Timer, now1: u64, now2: u64)
    requires
        t.wf(),
        !t.paused,
        now1 <= now2,
    ensures
        t.spec_elapsed(now2) >= t.spec_elapsed(now1),
{
}

/// A pause/resume round trip preserves elapsed time: pausing at `t1` and
/// resuming at any later `t2` leaves the elapsed time measured at `t2` equal
/// to the elapsed time measured when the pause began. The paused interval
/// never counts against the countdown.
pub proof fn lemma_pause_resume_preserves_elapsed(t: Timer, t1: u64, t2: u64)
    requires
        t.wf(),
        !t.paused,
        t1 <= t2,
    ensures
        t.spec_pause(t1).spec_resume(t2).spec_elapsed(t2) == t.spec_elapsed(t1),
{
}

/// The countdown has expired exactly when the progress gauge is full.
pub proof fn lemma_remaining_zero_iff_progress_full(t: Timer, now: u64)
    requires
        t.wf(),
    ensures
        t.spec_remaining(now) == 0 <==> t.spec_progress_permille(now) == 1000,
{
    if t.spec_elapsed(now) < t.duration_ms {
        assert(t.spec_elapsed(now) * 1000 / (t.duration_ms as int) < 1000) by (nonlinear_arith)
            requires
                0 <= t.spec_elapsed(now) < t.duration_ms,
        ;
    }
}

/// Pausing twice in a row has the same effect as pausing once, whatever the
/// clock readings.
pub proof fn lemma_pause_idempotent(t: Timer, t1: u64, t2: u64)
    ensures
        t.spec_pause(t1).spec_pause(t2) == t.spec_pause(t1),
{
}

/// Resuming twice in a row has the same effect as resuming once, whatever
/// the clock readings.
pub proof fn lemma_resume_idempotent(t: Timer, t1: u64, t2: u64)
    ensures
        t.spec_resume(t1).spec_resume(t2) == t.spec_resume(t1),
{
}

/// The timer state after a sequence of alert-trigger checks at the given
/// clock readings, in order.
pub open spec fn run_ticks(t: Timer, times: Seq<u64>) -> Timer
    decreases times.len(),
{
    if times.len() == 0 {
        t
    } else {
        run_ticks(t.spec_tick(times[0]), times.drop_first())
    }
}

/// How many of a sequence of alert-trigger checks fire the alert.
pub open spec fn fire_count(t: Timer, times: Seq<u64>) -> nat
    decreases times.len(),
{
    if times.len() == 0 {
        0
    } else {
        (if t.spec_fires(times[0]) {
            1nat
        } else {
            0nat
        }) + fire_count(t.spec_tick(times[0]), times.drop_first())
    }
}

/// Once the alert has fired, no later check fires it again (until a reset
/// clears the flag).
pub proof fn lemma_no_fire_after_fired(t: Timer, times: Seq<u64>)
    requires
        t.alert_fired,
    ensures
        fire_count(t, times) == 0,
        run_ticks(t, times) == t,
    decreases times.len(),
{
    if times.len() > 0 {
        lemma_no_fire_after_fired(t.spec_tick(times[0]), times.drop_first());
    }
}

/// Across any sequence of alert-trigger checks, the alert fires at most
/// once — and not at all if it has already fired this run.
pub proof fn lemma_alert_at_most_once(t: Timer, times: Seq<u64>)
    ensures
        fire_count(t, times) <= if t.alert_fired {
            0nat
        } else {
            1nat
        },
    decreases times.len(),
{
    if times.len() > 0 {
        if t.spec_fires(times[0]) {
            lemma_no_fire_after_fired(t.spec_tick(times[0]), times.drop_first());
        } else {
            lemma_alert_at_most_once(t.spec_tick(times[0]), times.drop_first());
        }
    }
}

/// When the countdown has expired and the timer is running with the alert
/// still pending, a sequence of checks beginning at that moment fires the
/// alert exactly once.
pub proof fn lemma_alert_exactly_once(t: Timer, times: Seq<u64>)
    requires
        !t.paused,
        !t.alert_fired,
        times.len() > 0,
        t.spec_remaining(times[0]) == 0,
    ensures
        fire_count(t, times) == 1,
{
    lemma_no_fire_after_fired(t.spec_tick(times[0]), times.drop_first());
}

/// Resetting returns the machine to the start of a fresh run, whatever state
/// it was in: the full duration remains and the alert is re-armed.
pub proof fn lemma_reset_restores(t: Timer, now: u64)
    requires
        t.wf(),
    ensures
        t.spec_reset(now).wf(),
        t.spec_reset(now).spec_remaining(now) == t.duration_ms,
        !t.spec_reset(now).alert_fired,
{
}

} // verus!
