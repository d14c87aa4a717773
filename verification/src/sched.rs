//! Deadline arithmetic of the periodic tasks.
//!
//! Periodic tasks re-arm themselves relative to their previously scheduled
//! time, never relative to "now", so jitter in when a task actually ran
//! cannot accumulate into drift: the n-th deadline is exactly the start
//! plus n periods.  Arming a deadline that has already passed means the
//! system has fallen behind real time; the scheduler rejects it and the
//! caller treats that as fatal.

use vstd::prelude::*;

verus! {

/// Error of a task that tried to arm a deadline already in the past: the
/// control loop can no longer meet its timing contract.
#[derive(Clone, Copy, Debug, PartialEq, Eq, Structural)]
pub struct DeadlineMissed;

/// One periodic task's schedule, measured in timer cycles.
#[derive(Clone, Copy)]
pub struct PeriodicTask {
    /// Cycle the schedule was based at.
    pub start: u64,
    /// Re-arm interval, cycles.
    pub period: u64,
    /// How many times the task has been armed since `start`.
    pub armed: u64,
    /// The currently scheduled deadline.
    pub deadline: u64,
}

impl PeriodicTask {
    /// The deadline is always exactly `start + armed * period`: however
    /// late the task actually ran, re-arming never drifts.
    pub open spec fn wf(&self) -> bool {
        &&& self.period >= 1
        &&& self.deadline == self.start + self.armed * self.period
    }

    /// Schedule the first deadline one period after `now`.
    pub fn new(now: u64, period: u64) -> (r: PeriodicTask)
        requires
            period >= 1,
            now + period <= u64::MAX,
        ensures
            r.wf(),
            r.start == now,
            r.period == period,
            r.armed == 1,
            r.deadline == now + period,
    {
        PeriodicTask { start: now, period, armed: 1, deadline: now + period }
    }

    /// Arm the next invocation at `deadline + period` — relative to the
    /// previously scheduled time, not to `now`.  A deadline that has
    /// already passed is rejected: the system has fallen behind real time
    /// and cannot recover deterministically.
    pub fn rearm(&mut self, now: u64) -> (r: Result<(), DeadlineMissed>)
        requires
            old(self).wf(),
            old(self).deadline + old(self).period <= u64::MAX,
        ensures
            final(self).wf(),
            r is Ok <==> old(self).deadline + old(self).period >= now,
            r is Ok ==> *final(self) == (PeriodicTask {
                armed: (old(self).armed + 1) as u64,
                deadline: (old(self).deadline + old(self).period) as u64,
                ..*old(self)
            }),
            r is Err ==> *final(self) == *old(self),
    {
        let next = self.deadline + self.period;
        if next < now {
            Err(DeadlineMissed)
        } else {
            proof {
                let ghost a = old(self).armed as int;
                let ghost p = old(self).period as int;
                assert(a * p >= a) by (nonlinear_arith)
                    requires
                        p >= 1,
                        a >= 0,
                ;
                assert((a + 1) * p == a * p + p) by (nonlinear_arith);
            }
            self.deadline = next;
            self.armed = self.armed + 1;
            Ok(())
        }
    }

    /// Re-arm with a fresh period (the telemetry cadence is read from the
    /// settings at every arm).  A changed period rebases the schedule at
    /// the current deadline.
    pub fn rearm_with(&mut self, period: u64, now: u64) -> (r: Result<(), DeadlineMissed>)
        requires
            old(self).wf(),
            period >= 1,
            old(self).deadline + period <= u64::MAX,
        ensures
            final(self).wf(),
            r is Ok <==> old(self).deadline + period >= now,
            r is Ok ==> final(self).deadline == old(self).deadline + period,
            r is Ok ==> final(self).period == period,
            r is Err ==> final(self).deadline == old(self).deadline,
    {
        if period != self.period {
            // Rebase: the drift-free equation restarts from the deadline
            // already scheduled.
            self.start = self.deadline;
            self.armed = 0;
            self.period = period;
            proof {
                assert(self.start + self.armed * self.period == self.start);
            }
        }
        self.rearm(now)
    }
}

/// The deadline a drift-free schedule reaches after `n` arms.
pub open spec fn nth_deadline(start: int, period: int, n: int) -> int {
    start + n * period
}

/// Drift-freedom law: a well-formed task's deadline is exactly the n-th
/// deadline of its schedule, `start + armed * period` — delays in when the
/// task ran never shift the grid.
pub proof fn lemma_no_drift(t: PeriodicTask)
    requires
        t.wf(),
    ensures
        t.deadline == nth_deadline(t.start as int, t.period as int, t.armed as int),
{
}

} // verus!
