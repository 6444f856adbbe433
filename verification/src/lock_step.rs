//! The lock-step virtual clock.
//!
//! In lock-step mode time does not flow: an external driver advances a
//! shared clock tick by tick, and sleepers wait for the clock to reach
//! their deadline instead of sleeping for real. An early-wake flag lets a
//! signal handler interrupt a virtual sleep: the first sleeper that
//! observes the flag consumes it and returns how much of its sleep was
//! left. The embedding program holds the clock behind a mutex with a
//! condition variable; every update notifies a waiter, which polls again
//! through [`LockStepClock::lock_step_sleep_poll`].

use vstd::prelude::*;

use crate::hrt::Timespec;

verus! {

/// The virtual monotonic clock: the current time and the early-wake
/// flag, advanced only by the external driver.
pub struct LockStepClock {
    /// The current virtual time.
    pub current: Timespec,
    /// Raised to interrupt the next virtual sleep; consumed (cleared) by
    /// the first sleeper that observes it.
    pub early_waken: bool,
}

impl LockStepClock {
    /// The clock at its origin, with the early-wake flag clear.
    pub fn new() -> (r: Self)
        ensures
            r.current == (Timespec { sec: 0, nsec: 0 }),
            !r.early_waken,
    {
        LockStepClock { current: Timespec { sec: 0, nsec: 0 }, early_waken: false }
    }

    /// The current virtual time.
    pub fn get_time_now(&self) -> (r: Timespec)
        ensures
            r == self.current,
    {
        self.current
    }

    /// The driver moves the clock forward to `new_time`. Virtual time
    /// never goes backwards; after the update the embedding program
    /// notifies one waiting sleeper.
    pub fn lock_step_update_time(&mut self, new_time: Timespec)
        requires
            new_time.nanos() >= old(self).current.nanos(),
        ensures
            final(self).current == new_time,
            final(self).early_waken == old(self).early_waken,
            final(self).current.nanos() >= old(self).current.nanos(),
    {
        self.current = new_time;
    }

    /// Raise the early-wake flag; the signal-handler side of an
    /// interrupted virtual sleep.
    pub fn set_early_waken(&mut self)
        ensures
            final(self).current == old(self).current,
            final(self).early_waken,
    {
        self.early_waken = true;
    }

    /// The deadline a virtual sleep of `ns` nanoseconds starting now
    /// runs towards.
    pub fn sleep_deadline(&self, ns: i64) -> (r: Timespec)
        requires
            i64::MIN <= self.current.nsec + ns <= i64::MAX,
        ensures
            r.nanos() == self.current.nanos() + ns,
    {
        self.current.add_nanos(ns)
    }

    /// One round of a virtual sleep towards `deadline`, taken every time
    /// the sleeper holds the clock: the sleep is over (zero nanoseconds
    /// left) once the clock has reached the deadline; an observed
    /// early-wake flag is consumed and the sleep ends with the time that
    /// was left unslept; otherwise the sleeper must wait on the clock's
    /// condition variable and poll again.
    pub fn lock_step_sleep_poll(&mut self, deadline: Timespec) -> (r: Option<i64>)
        requires
            i64::MIN <= deadline.nanos() - old(self).current.nanos() <= i64::MAX,
        ensures
            old(self).current.nanos() >= deadline.nanos() ==> {
                &&& r == Some(0i64)
                &&& *final(self) == *old(self)
            },
            old(self).current.nanos() < deadline.nanos() && old(self).early_waken ==> {
                &&& r == Some((deadline.nanos() - old(self).current.nanos()) as i64)
                &&& final(self).current == old(self).current
                &&& !final(self).early_waken
            },
            old(self).current.nanos() < deadline.nanos() && !old(self).early_waken ==> {
                &&& r.is_none()
                &&& *final(self) == *old(self)
            },
    {
        if self.current.at_or_after(&deadline) {
            return Some(0);
        }
        if self.early_waken {
            self.early_waken = false;
            let rem: i128 = ((deadline.sec as i128) * 1_000_000_000 + (deadline.nsec as i128))
                - ((self.current.sec as i128) * 1_000_000_000 + (self.current.nsec as i128));
            return Some(rem as i64);
        }
        None
    }
}

} // verus!
