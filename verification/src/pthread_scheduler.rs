//! The periodic scheduler record of a real-time thread.
//!
//! Each scheduled thread carries one [`SchedulePthread`] record: the
//! monotonic time at which its last scheduling sleep returned, and the
//! deadline it is currently sleeping towards (exposed so that other
//! threads can measure scheduling latency). The record decides when the
//! thread must wake; the embedding program performs the actual
//! nanosecond sleep between [`SchedulePthread::schedule_after`] or
//! [`SchedulePthread::schedule_until`] and
//! [`SchedulePthread::complete_schedule`].

use vstd::prelude::*;

use crate::hrt::Timespec;

verus! {

/// Per-thread scheduling record: written only by the thread it belongs
/// to, readable by others for latency measurement.
pub struct SchedulePthread {
    /// When the last scheduling sleep of this thread returned.
    pub last_scheduled_time: Timespec,
    /// The instant the thread is currently sleeping towards.
    pub deadline: Timespec,
}

impl SchedulePthread {
    /// A fresh record at the clock origin, made when the thread starts.
    pub fn new() -> (r: Self)
        ensures
            r.last_scheduled_time == (Timespec { sec: 0, nsec: 0 }),
            r.deadline == (Timespec { sec: 0, nsec: 0 }),
    {
        SchedulePthread {
            last_scheduled_time: Timespec { sec: 0, nsec: 0 },
            deadline: Timespec { sec: 0, nsec: 0 },
        }
    }

    /// Plan a relative-cadence sleep: the deadline becomes `us`
    /// microseconds after `now` (the current monotonic time), and the
    /// returned value is how many nanoseconds the thread must now sleep.
    /// The caller sleeps and then hands the wake-up time to
    /// [`Self::complete_schedule`].
    pub fn schedule_after(&mut self, now: Timespec, us: i64) -> (sleep_ns: i64)
        requires
            0 <= us,
            us * 1000 <= i64::MAX,
            now.nsec + us * 1000 <= i64::MAX,
        ensures
            sleep_ns == us * 1000,
            final(self).deadline.nanos() == now.nanos() + us * 1000,
            final(self).last_scheduled_time == old(self).last_scheduled_time,
    {
        let ns = us * 1000;
        self.deadline = now.add_nanos(ns);
        ns
    }

    /// Plan an absolute-cadence sleep: the deadline becomes `us`
    /// microseconds after the previous sleep's return, so a fixed period
    /// is kept without drift however long the work in between took. The
    /// returned value is how many nanoseconds remain from `now` to that
    /// deadline; when it is not positive the period was missed and the
    /// caller must not sleep at all (no catch-up is attempted).
    pub fn schedule_until(&mut self, now: Timespec, us: i64) -> (sleep_ns: i64)
        requires
            0 <= us,
            us * 1000 <= i64::MAX,
            old(self).last_scheduled_time.nsec + us * 1000 <= i64::MAX,
            i64::MIN <= old(self).last_scheduled_time.nanos() + us * 1000 - now.nanos() <= i64::MAX,
        ensures
            final(self).deadline.nanos() == old(self).last_scheduled_time.nanos() + us * 1000,
            sleep_ns == final(self).deadline.nanos() - now.nanos(),
            final(self).last_scheduled_time == old(self).last_scheduled_time,
    {
        let deadline = self.last_scheduled_time.add_nanos(us * 1000);
        self.deadline = deadline;
        let rem: i128 = ((deadline.sec as i128) * 1_000_000_000 + (deadline.nsec as i128))
            - ((now.sec as i128) * 1_000_000_000 + (now.nsec as i128));
        rem as i64
    }

    /// Record that the scheduling sleep returned at `now`. The monotonic
    /// clock never runs backwards, so `last_scheduled_time` never
    /// decreases across the scheduling calls of a thread.
    pub fn complete_schedule(&mut self, now: Timespec)
        requires
            now.nanos() >= old(self).last_scheduled_time.nanos(),
        ensures
            final(self).last_scheduled_time == now,
            final(self).deadline == old(self).deadline,
            final(self).last_scheduled_time.nanos() >= old(self).last_scheduled_time.nanos(),
    {
        self.last_scheduled_time = now;
    }
}

/// For a `schedule_until(us)` call that plans a non-negative sleep: if
/// the operating system sleeps at least the planned nanoseconds (its
/// guarantee for an uninterrupted sleep), the monotonic time between the
/// previous sleep's return and this one's is at least `us * 1000`
/// nanoseconds — the full period is honoured.
pub proof fn lemma_schedule_until_period(
    last: Timespec,
    now: Timespec,
    wake: Timespec,
    us: i64,
    sleep_ns: i64,
)
    requires
        0 <= us,
        sleep_ns == last.nanos() + us * 1000 - now.nanos(),
        sleep_ns >= 0,
        wake.nanos() >= now.nanos() + sleep_ns,
    ensures
        wake.nanos() - last.nanos() >= us * 1000,
{
}

} // verus!
