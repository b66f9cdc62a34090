//! Liveness watchdog of one connected device.
//!
//! The caller owns the clock and the port. Every `WATCHDOG_INTERVAL_MS` it
//! reads the cancellation flag and, unless that is set, probes the port with
//! a flush under the port's lock. It reports what it saw to `Watchdog::tick`
//! and does what the verdict says.

use vstd::prelude::*;

verus! {

/// Time between two probes.
pub const WATCHDOG_INTERVAL_MS: u64 = 500;

/// Consecutive failed probes after which the device counts as lost.
pub const WATCHDOG_FAIL_THRESHOLD: u32 = 3;

/// What one tick of the watchdog saw.
#[derive(Debug, Clone, Copy, PartialEq, Eq, Structural)]
pub enum Observation {
    /// The cancellation flag was set; the port was not probed.
    Cancelled,
    /// The probe succeeded.
    Alive,
    /// The probe failed.
    Silent,
}

/// What the watchdog's owner does after a tick.
#[derive(Debug, Clone, Copy, PartialEq, Eq, Structural)]
pub enum Verdict {
    /// Sleep one interval and tick again.
    Continue,
    /// Report the device as lost, then end the watchdog.
    DeviceLost,
    /// End the watchdog without a report.
    Stopped,
}

/// The watchdog's memory between ticks.
#[derive(Debug, Clone, Copy, PartialEq, Eq, Structural)]
pub struct Watchdog {
    /// Failed probes since the last success.
    pub fails: u32,
    /// Set once the watchdog has ended; it never runs again.
    pub finished: bool,
}

/// The watchdog after a tick.
pub open spec fn after_tick(watchdog: Watchdog, seen: Observation) -> Watchdog {
    if watchdog.finished {
        watchdog
    } else {
        match seen {
            Observation::Cancelled => Watchdog { fails: watchdog.fails, finished: true },
            Observation::Alive => Watchdog { fails: 0, finished: false },
            Observation::Silent => if watchdog.fails + 1 >= WATCHDOG_FAIL_THRESHOLD {
                Watchdog { fails: WATCHDOG_FAIL_THRESHOLD, finished: true }
            } else {
                Watchdog { fails: (watchdog.fails + 1) as u32, finished: false }
            },
        }
    }
}

/// The verdict of a tick.
pub open spec fn verdict_of(watchdog: Watchdog, seen: Observation) -> Verdict {
    if watchdog.finished {
        Verdict::Stopped
    } else {
        match seen {
            Observation::Cancelled => Verdict::Stopped,
            Observation::Alive => Verdict::Continue,
            Observation::Silent => if watchdog.fails + 1 >= WATCHDOG_FAIL_THRESHOLD {
                Verdict::DeviceLost
            } else {
                Verdict::Continue
            },
        }
    }
}

/// The watchdog after a run of ticks, from a fresh start.
pub open spec fn after_run(seen: Seq<Observation>) -> Watchdog
    decreases seen.len(),
{
    if seen.len() == 0 {
        Watchdog { fails: 0, finished: false }
    } else {
        after_tick(after_run(seen.drop_last()), seen.last())
    }
}

/// The verdict of tick `at` of a run that started fresh.
pub open spec fn verdict_at(seen: Seq<Observation>, at: int) -> Verdict
    recommends
        0 <= at < seen.len(),
{
    verdict_of(after_run(seen.take(at)), seen[at])
}

/// Milliseconds from the first failed probe of a streak to the tick that
/// reports the loss, with ticks one interval apart.
pub open spec fn loss_delay_ms() -> int {
    (WATCHDOG_FAIL_THRESHOLD as int - 1) * WATCHDOG_INTERVAL_MS as int
}

/// Whether ticks `at - 2`, `at - 1` and `at` all saw a failed probe.
pub open spec fn three_strikes(seen: Seq<Observation>, at: int) -> bool {
    2 <= at < seen.len() && seen[at - 2] == Observation::Silent && seen[at - 1]
        == Observation::Silent && seen[at] == Observation::Silent
}

impl Watchdog {
    /// A watchdog that has seen nothing yet.
    pub fn new() -> (watchdog: Self)
        ensures
            watchdog == (Watchdog { fails: 0, finished: false }),
    {
        Watchdog { fails: 0, finished: false }
    }

    /// Takes in what a tick saw. A success clears the failure count, the
    /// third failure in a row reports the loss, and a set cancellation flag
    /// ends the watchdog silently. A watchdog that has ended stays ended.
    pub fn tick(&mut self, seen: Observation) -> (verdict: Verdict)
        ensures
            *final(self) == after_tick(*old(self), seen),
            verdict == verdict_of(*old(self), seen),
    {
        if self.finished {
            return Verdict::Stopped;
        }
        match seen {
            Observation::Cancelled => {
                self.finished = true;
                Verdict::Stopped
            },
            Observation::Alive => {
                self.fails = 0;
                Verdict::Continue
            },
            Observation::Silent => {
                if self.fails >= WATCHDOG_FAIL_THRESHOLD - 1 {
                    self.fails = WATCHDOG_FAIL_THRESHOLD;
                    self.finished = true;
                    Verdict::DeviceLost
                } else {
                    self.fails = self.fails + 1;
                    Verdict::Continue
                }
            },
        }
    }
}

/// What the count of a running watchdog says of the last ticks of its run.
proof fn lemma_running_count(seen: Seq<Observation>)
    ensures
        !after_run(seen).finished ==> after_run(seen).fails < WATCHDOG_FAIL_THRESHOLD,
        !after_run(seen).finished ==> forall|k: int| 0 <= k < seen.len() ==> seen[k]
            != Observation::Cancelled,
        !after_run(seen).finished && seen.len() > 0 ==> (seen.last() == Observation::Silent
            <==> after_run(seen).fails > 0),
        !after_run(seen).finished && seen.len() > 1 && after_run(seen).fails == 2
            ==> seen[seen.len() - 2] == Observation::Silent,
        !after_run(seen).finished && seen.len() > 0 && after_run(seen).fails > 0 ==> (
        after_run(seen).fails == 1 <==> seen.len() == 1 || seen[seen.len() - 2]
            != Observation::Silent),
    decreases seen.len(),
{
    if seen.len() > 0 {
        let before = seen.drop_last();
        lemma_running_count(before);
        if !after_run(seen).finished {
            assert forall|k: int| 0 <= k < seen.len() implies seen[k]
                != Observation::Cancelled by {
                if k < seen.len() - 1 {
                    assert(before[k] == seen[k]);
                }
            }
        }
    }
}

/// A loss is reported at a tick exactly when that tick is the third failed
/// probe in a row and the watchdog was still running: so never on fewer than
/// three consecutive failures, and any success in between starts the count
/// again.
pub proof fn lemma_loss_iff_three_strikes(seen: Seq<Observation>, at: int)
    requires
        0 <= at < seen.len(),
    ensures
        verdict_at(seen, at) == Verdict::DeviceLost <==> three_strikes(seen, at) && !after_run(
            seen.take(at),
        ).finished,
{
    let before = seen.take(at);
    lemma_running_count(before);
}

/// The loss follows the first failure of its streak by no less than one
/// second and no more than two.
pub proof fn lemma_loss_delay_window()
    ensures
        1000 <= loss_delay_ms() <= 2000,
{
}

/// A watchdog that has ended stays ended, whatever it is told.
pub proof fn lemma_finished_stays(seen: Seq<Observation>, more: Seq<Observation>)
    requires
        after_run(seen).finished,
    ensures
        after_run(seen + more) == after_run(seen),
    decreases more.len(),
{
    if more.len() > 0 {
        lemma_finished_stays(seen, more.drop_last());
        assert((seen + more).drop_last() =~= seen + more.drop_last());
    }
}

/// At most one tick of a run reports the loss.
pub proof fn lemma_single_loss(seen: Seq<Observation>, first: int, second: int)
    requires
        0 <= first < second < seen.len(),
        verdict_at(seen, first) == Verdict::DeviceLost,
    ensures
        verdict_at(seen, second) == Verdict::Stopped,
{
    let upto = seen.take(first + 1);
    assert(upto.drop_last() =~= seen.take(first));
    let more = seen.subrange(first + 1, second);
    lemma_finished_stays(upto, more);
    assert(upto + more =~= seen.take(second));
}

} // verus!
