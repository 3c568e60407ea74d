//! The countdown timer state machine.
//!
//! All time points are `u64` millisecond readings of a monotonic clock; the
//! caller passes the current reading (`now`) into every operation. Elapsed
//! time is frozen while the timer is paused, and resuming shifts the start
//! reference forward by the length of the pause, so a pause never counts
//! against the countdown.

use vstd::prelude::*;

verus! {

/// A duration of zero seconds requested at construction is coerced to this
/// default, in seconds.
pub const DEFAULT_DURATION_SECS: u64 = 10;

/// Milliseconds per second.
pub const MILLIS_PER_SEC: u64 = 1000;

/// The countdown timer state machine.
pub struct Timer {
    /// The moment (clock reading, ms) the timer would have started counting
    /// from zero, adjusted forward for accumulated pause time.
    pub start_reference: u64,
    /// The configured countdown length in milliseconds; always positive.
    pub duration_ms: u64,
    /// Whether the timer is currently paused.
    pub paused: bool,
    /// The clock reading at which the current pause began; present exactly
    /// when `paused` is true.
    pub paused_at: Option<u64>,
    /// Whether the alert has already fired for the current run.
    pub alert_fired: bool,
}

impl Timer {
    /// Well-formedness: `paused_at` is present iff the timer is paused, and
    /// the duration is positive.
    pub open spec fn wf(self) -> bool {
        &&& self.paused <==> self.paused_at is Some
        &&& self.duration_ms > 0
    }

    /// Elapsed milliseconds at clock reading `now`: frozen at the pause point
    /// while paused, never negative.
    pub open spec fn spec_elapsed(self, now: u64) -> int {
        let at = if self.paused {
            self.paused_at->Some_0
        } else {
            now
        };
        if at >= self.start_reference {
            at - self.start_reference
        } else {
            0
        }
    }

    /// Remaining milliseconds at clock reading `now`, floored at zero.
    pub open spec fn spec_remaining(self, now: u64) -> int {
        if self.spec_elapsed(now) >= self.duration_ms {
            0
        } else {
            self.duration_ms - self.spec_elapsed(now)
        }
    }

    /// Progress through the countdown at clock reading `now`, in thousandths:
    /// 0 at the start, 1000 once the duration has elapsed.
    pub open spec fn spec_progress_permille(self, now: u64) -> int {
        if self.spec_elapsed(now) >= self.duration_ms {
            1000
        } else {
            self.spec_elapsed(now) * 1000 / self.duration_ms as int
        }
    }

    /// The state after `pause(now)`: a no-op when already paused, otherwise
    /// the pause point is recorded and elapsed time freezes there.
    pub open spec fn spec_pause(self, now: u64) -> Timer {
        if self.paused {
            self
        } else {
            Timer { paused: true, paused_at: Some(now), ..self }
        }
    }

    /// The start reference after resuming at `now`: shifted forward by the
    /// length of the pause, saturating (a clock reading older than the pause
    /// point contributes nothing).
    pub open spec fn spec_resume_start(self, now: u64) -> u64 {
        let span: int = if now >= self.paused_at->Some_0 {
            now - self.paused_at->Some_0
        } else {
            0
        };
        if self.start_reference + span > u64::MAX {
            u64::MAX
        } else {
            (self.start_reference + span) as u64
        }
    }

    /// The state after `resume(now)`: a no-op when not paused, otherwise the
    /// pause ends and the start reference absorbs the paused interval, so the
    /// elapsed time measured at `now` is what it was when the pause began.
    pub open spec fn spec_resume(self, now: u64) -> Timer {
        if !self.paused {
            self
        } else {
            Timer {
                start_reference: self.spec_resume_start(now),
                paused: false,
                paused_at: None,
                ..self
            }
        }
    }

    /// The state after `reset(now)`: a fresh run of the same duration
    /// starting at `now`.
    pub open spec fn spec_reset(self, now: u64) -> Timer {
        Timer {
            start_reference: now,
            paused: false,
            paused_at: None,
            alert_fired: false,
            ..self
        }
    }

    /// Whether the alert trigger fires at clock reading `now`: only while
    /// actively running, only once the countdown has expired, and only if it
    /// has not fired yet this run.
    pub open spec fn spec_fires(self, now: u64) -> bool {
        &&& !self.paused
        &&& self.spec_remaining(now) == 0
        &&& !self.alert_fired
    }

    /// The state after one alert-trigger check at clock reading `now`.
    pub open spec fn spec_tick(self, now: u64) -> Timer {
        if self.spec_fires(now) {
            Timer { alert_fired: true, ..self }
        } else {
            self
        }
    }
}

/// Constructs a timer starting at clock reading `now_ms` with the given
/// countdown length in seconds; a length of zero is coerced to
/// [`DEFAULT_DURATION_SECS`].
pub fn new_timer(now_ms: u64, duration_secs: u64) -> (t: Timer)
    requires
        duration_secs <= u64::MAX / MILLIS_PER_SEC,
    ensures
        t.wf(),
        t.start_reference == now_ms,
        !t.paused,
        !t.alert_fired,
        duration_secs == 0 ==> t.duration_ms == DEFAULT_DURATION_SECS * MILLIS_PER_SEC,
        duration_secs > 0 ==> t.duration_ms == duration_secs * MILLIS_PER_SEC,
{
    let secs: u64 = if duration_secs == 0 {
        DEFAULT_DURATION_SECS
    } else {
        duration_secs
    };
    Timer {
        start_reference: now_ms,
        duration_ms: secs * MILLIS_PER_SEC,
        paused: false,
        paused_at: None,
        alert_fired: false,
    }
}

impl Timer {
    /// Elapsed milliseconds at clock reading `now`.
    pub fn elapsed(&self, now: u64) -> (e: u64)
        requires
            self.wf(),
        ensures
            e == self.spec_elapsed(now),
    {
        let at: u64 = if self.paused {
            match self.paused_at {
                Some(p) => p,
                None => now,
            }
        } else {
            now
        };
        if at >= self.start_reference {
            at - self.start_reference
        } else {
            0
        }
    }

    /// Remaining milliseconds at clock reading `now`.
    pub fn remaining(&self, now: u64) -> (r: u64)
        requires
            self.wf(),
        ensures
            r == self.spec_remaining(now),
    {
        let e = self.elapsed(now);
        if e >= self.duration_ms {
            0
        } else {
            self.duration_ms - e
        }
    }

    /// Progress through the countdown at clock reading `now`, in thousandths
    /// (0 ..= 1000).
    pub fn progress_permille(&self, now: u64) -> (p: u64)
        requires
            self.wf(),
        ensures
            p == self.spec_progress_permille(now),
            0 <= p <= 1000,
    {
        let e = self.elapsed(now);
        if e >= self.duration_ms {
            1000
        } else {
            let p128: u128 = (e as u128) * 1000 / (self.duration_ms as u128);
            proof {
                assert(e * 1000 / (self.duration_ms as int) < 1000) by (nonlinear_arith)
                    requires
                        0 <= e < self.duration_ms,
                ;
            }
            p128 as u64
        }
    }

    /// Pauses the countdown at clock reading `now`; a no-op when already
    /// paused.
    pub fn pause(&mut self, now: u64)
        requires
            old(self).wf(),
        ensures
            *final(self) == old(self).spec_pause(now),
            final(self).wf(),
    {
        if !self.paused {
            self.paused = true;
            self.paused_at = Some(now);
        }
    }

    /// Resumes the countdown at clock reading `now`; a no-op when not paused.
    /// The paused interval is absorbed into the start reference, so elapsed
    /// time does not grow across a pause.
    pub fn resume(&mut self, now: u64)
        requires
            old(self).wf(),
        ensures
            *final(self) == old(self).spec_resume(now),
            final(self).wf(),
    {
        if self.paused {
            let p: u64 = match self.paused_at {
                Some(p) => p,
                None => now,
            };
            let span: u64 = if now >= p {
                now - p
            } else {
                0
            };
            self.start_reference = if self.start_reference <= u64::MAX - span {
                self.start_reference + span
            } else {
                u64::MAX
            };
            self.paused = false;
            self.paused_at = None;
        }
    }

    /// Resets the timer to a fresh run of the same duration starting at clock
    /// reading `now`.
    pub fn reset(&mut self, now: u64)
        requires
            old(self).wf(),
        ensures
            *final(self) == old(self).spec_reset(now),
            final(self).wf(),
    {
        self.start_reference = now;
        self.paused = false;
        self.paused_at = None;
        self.alert_fired = false;
    }

    /// One alert-trigger check at clock reading `now`: returns whether the
    /// alert sound should be played, and records the firing so it happens at
    /// most once per run.
    pub fn tick_alert(&mut self, now: u64) -> (fire: bool)
        requires
            old(self).wf(),
        ensures
            fire == old(self).spec_fires(now),
            *final(self) == old(self).spec_tick(now),
            final(self).wf(),
    {
        if !self.paused && self.remaining(now) == 0 && !self.alert_fired {
            self.alert_fired = true;
            true
        } else {
            false
        }
    }
}

} // verus!
