//! A one-shot alarm over a monotonic clock: an armed deadline derived from
//! "now + duration" at schedule time. The clock reading itself comes from
//! outside the library; every operation takes the current reading as a plain
//! value.

use vstd::prelude::*;

verus! {

/// One one-shot deadline. Once `finished` observes the deadline as reached,
/// it keeps reporting so for every later clock reading until the alarm is
/// rescheduled: see [`AlarmTimer::lemma_finished_stable`].
#[derive(Clone, Copy, Debug, PartialEq, Eq, Structural)]
pub struct AlarmTimer {
    /// The clock reading at which the alarm expires; meaningful only while
    /// `armed` is set.
    pub deadline: u64,
    /// Whether a deadline has been armed since construction.
    pub armed: bool,
}

impl AlarmTimer {
    /// The alarm that `schedule` at reading `now` for `duration` time units
    /// produces.
    pub open spec fn spec_scheduled(now: u64, duration: u64) -> AlarmTimer {
        AlarmTimer { deadline: (now + duration) as u64, armed: true }
    }

    /// Whether the alarm has expired at clock reading `now`.
    pub open spec fn spec_finished(self, now: u64) -> bool {
        self.armed && now >= self.deadline
    }

    /// A fresh, unarmed alarm: it reports `finished` false until scheduled.
    pub fn unarmed() -> (timer: AlarmTimer)
        ensures
            !timer.armed,
            forall|now: u64| !timer.spec_finished(now),
    {
        AlarmTimer { deadline: 0, armed: false }
    }

    /// Arms the alarm to expire `duration` time units after the reading
    /// `now`, discarding any earlier deadline and clearing any previous
    /// "finished" observation.
    pub fn schedule(&mut self, now: u64, duration: u64)
        requires
            duration >= 1,
            now + duration <= u64::MAX,
        ensures
            *final(self) == AlarmTimer::spec_scheduled(now, duration),
            final(self).armed,
            final(self).deadline == now + duration,
            !final(self).spec_finished(now),
    {
        self.deadline = now + duration;
        self.armed = true;
    }

    /// Whether the clock has reached or passed the armed deadline. Pure
    /// query: repeated calls after expiry keep returning true until the
    /// alarm is rescheduled.
    pub fn finished(&self, now: u64) -> (expired: bool)
        ensures
            expired == self.spec_finished(now),
    {
        self.armed && now >= self.deadline
    }

    /// Once the alarm has expired it stays expired under a monotonic clock:
    /// no later reading un-finishes it short of a reschedule.
    pub proof fn lemma_finished_stable(self, earlier: u64, later: u64)
        requires
            earlier <= later,
            self.spec_finished(earlier),
        ensures
            self.spec_finished(later),
    {
    }
}

} // verus!
