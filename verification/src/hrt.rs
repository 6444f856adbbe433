//! Monotonic timestamps and the high-resolution timer queue.
//!
//! A [`Timespec`] is an unnormalized `{sec, nsec}` pair ordered by its
//! total nanosecond count. The [`HRTQueue`] keeps timer entries sorted by
//! non-decreasing deadline; a dedicated worker thread owned by the
//! embedding program repeatedly pops the due head entry, runs its
//! callback, and sleeps until the next deadline (at most one millisecond
//! at a time).

use vstd::prelude::*;

verus! {

/// Total nanoseconds of one millisecond: the longest uninterrupted sleep
/// the timer worker takes between scans of the queue.
pub const DURATION_1_MS: i64 = 1000 * 1000;

/// A monotonic instant, kept unnormalized: `nsec` may lie outside
/// `[0, 10^9)` after arithmetic. Instants are always compared through
/// their total nanosecond count.
#[derive(Clone, Copy, Debug, PartialEq, Eq, Structural)]
pub struct Timespec {
    pub sec: i64,
    pub nsec: i64,
}

impl Timespec {
    /// The total nanosecond count of this instant, as a mathematical
    /// integer. All ordering of instants is defined through this value.
    pub open spec fn nanos(self) -> int {
        self.sec * 1_000_000_000 + self.nsec
    }

    /// The total nanosecond count fits in a machine `i64` (as does the
    /// scaled `sec` term on its own), so this instant can be converted
    /// to nanoseconds in executable code.
    pub open spec fn nanos_in_i64(self) -> bool {
        &&& i64::MIN <= self.sec * 1_000_000_000 <= i64::MAX
        &&& i64::MIN <= self.nanos() <= i64::MAX
    }

    /// The total nanosecond count of this instant.
    pub fn to_nano(&self) -> (r: i64)
        requires
            self.nanos_in_i64(),
        ensures
            r == self.nanos(),
    {
        self.sec * 1_000_000_000 + self.nsec
    }

    /// The instant `sec` whole seconds after the origin.
    pub fn from_secs(sec: i64) -> (r: Self)
        ensures
            r.sec == sec,
            r.nsec == 0,
            r.nanos() == sec * 1_000_000_000,
    {
        Timespec { sec, nsec: 0 }
    }

    /// Component-wise sum of two instants (a duration added to an
    /// instant). The result stays unnormalized.
    pub fn add_ts(self, rhs: Self) -> (r: Self)
        requires
            i64::MIN <= self.sec + rhs.sec <= i64::MAX,
            i64::MIN <= self.nsec + rhs.nsec <= i64::MAX,
        ensures
            r.sec == self.sec + rhs.sec,
            r.nsec == self.nsec + rhs.nsec,
            r.nanos() == self.nanos() + rhs.nanos(),
    {
        Timespec { sec: self.sec + rhs.sec, nsec: self.nsec + rhs.nsec }
    }

    /// Component-wise difference of two instants. The result stays
    /// unnormalized.
    pub fn sub_ts(self, rhs: Self) -> (r: Self)
        requires
            i64::MIN <= self.sec - rhs.sec <= i64::MAX,
            i64::MIN <= self.nsec - rhs.nsec <= i64::MAX,
        ensures
            r.sec == self.sec - rhs.sec,
            r.nsec == self.nsec - rhs.nsec,
            r.nanos() == self.nanos() - rhs.nanos(),
    {
        Timespec { sec: self.sec - rhs.sec, nsec: self.nsec - rhs.nsec }
    }

    /// Whether this instant lies strictly after `other`, by total
    /// nanosecond count.
    pub fn after(&self, other: &Timespec) -> (r: bool)
        ensures
            r == (self.nanos() > other.nanos()),
    {
        match self.partial_cmp(other) {
            Some(core::cmp::Ordering::Greater) => true,
            _ => false,
        }
    }

    /// Whether this instant lies at or after `other`, by total
    /// nanosecond count.
    pub fn at_or_after(&self, other: &Timespec) -> (r: bool)
        ensures
            r == (self.nanos() >= other.nanos()),
    {
        match self.partial_cmp(other) {
            Some(core::cmp::Ordering::Less) => false,
            _ => true,
        }
    }

    /// This instant pushed `rhs` nanoseconds into the future (or past,
    /// when `rhs` is negative). Only the `nsec` field moves.
    pub fn add_nanos(self, rhs: i64) -> (r: Self)
        requires
            i64::MIN <= self.nsec + rhs <= i64::MAX,
        ensures
            r.sec == self.sec,
            r.nsec == self.nsec + rhs,
            r.nanos() == self.nanos() + rhs,
    {
        Timespec { sec: self.sec, nsec: self.nsec + rhs }
    }
}

/// A timer queue entry: a deadline together with the callback value the
/// worker hands back (or runs) once the deadline has passed. The callback
/// payload is opaque to the queue.
pub struct HRTEntry<C> {
    pub deadline: Timespec,
    pub callback: C,
}

impl<C> HRTEntry<C> {
    /// Pair a deadline with its callback.
    pub fn new(deadline: Timespec, callback: C) -> (r: Self)
        ensures
            r.deadline == deadline,
            r.callback == callback,
    {
        HRTEntry { deadline, callback }
    }
}

/// The position at which an entry with deadline `d` is inserted into the
/// entry sequence `s`: the first index whose deadline lies strictly after
/// `d`, so that an entry goes after all entries with an equal deadline
/// (ties break by insertion order).
pub open spec fn hrt_insert_pos<C>(s: Seq<HRTEntry<C>>, d: int) -> int
    decreases s.len(),
{
    if s.len() == 0 {
        0
    } else if s[0].deadline.nanos() <= d {
        1 + hrt_insert_pos(s.drop_first(), d)
    } else {
        0
    }
}

/// The entry sequence is sorted by non-decreasing deadline.
pub open spec fn deadlines_sorted<C>(s: Seq<HRTEntry<C>>) -> bool {
    forall|i: int, j: int|
        0 <= i < j < s.len() ==> #[trigger] s[i].deadline.nanos() <= #[trigger] s[j].deadline.nanos()
}

/// The deadline-ordered timer queue. Producers insert entries; the single
/// worker thread of the embedding program pops due entries from the front
/// and asks how long to sleep until the next one. The front entry always
/// carries the earliest deadline.
pub struct HRTQueue<C> {
    pub list: Vec<HRTEntry<C>>,
}

impl<C> HRTQueue<C> {
    /// The queue invariant: entries sorted by non-decreasing deadline.
    pub open spec fn wf(&self) -> bool {
        deadlines_sorted(self.list@)
    }

    /// An empty queue. The embedding program spawns the worker thread
    /// beside it and installs the wake-up signal handler.
    pub fn new() -> (r: Self)
        ensures
            r.wf(),
            r.list@.len() == 0,
    {
        HRTQueue { list: Vec::new() }
    }

    /// Insert `entry` keeping the deadline order; an entry whose deadline
    /// equals existing ones goes after them, so insertion order is kept
    /// among ties. Returns true exactly when the new entry became the
    /// head of the queue (the queue was empty, or the entry's deadline
    /// lies strictly before every other): the caller must then awaken the
    /// sleeping worker.
    pub fn add(&mut self, entry: HRTEntry<C>) -> (wake: bool)
        requires
            old(self).wf(),
        ensures
            final(self).wf(),
            final(self).list@ == old(self).list@.insert(
                hrt_insert_pos(old(self).list@, entry.deadline.nanos()),
                entry,
            ),
            wake == (hrt_insert_pos(old(self).list@, entry.deadline.nanos()) == 0),
    {
        let ghost s0 = self.list@;
        let ghost d = entry.deadline.nanos();
        let mut i: usize = 0;
        while i < self.list.len()
            invariant
                0 <= i <= self.list@.len(),
                self.list@ == s0,
                d == entry.deadline.nanos(),
                forall|k: int| 0 <= k < i ==> #[trigger] s0[k].deadline.nanos() <= d,
            ensures
                0 <= i <= self.list@.len(),
                self.list@ == s0,
                forall|k: int| 0 <= k < i ==> #[trigger] s0[k].deadline.nanos() <= d,
                i < s0.len() ==> s0[i as int].deadline.nanos() > d,
            decreases self.list@.len() - i,
        {
            if self.list[i].deadline.after(&entry.deadline) {
                break;
            }
            i += 1;
        }
        proof {
            lemma_hrt_insert_pos_found(s0, d, i as int);
            lemma_hrt_insert_pos_sorted_insert(s0, entry, i as int);
        }
        self.list.insert(i, entry);
        i == 0
    }

    /// If the head entry's deadline has been reached at `now`, remove and
    /// return it; the caller runs its callback and asks again. Otherwise
    /// (or on an empty queue) return nothing and leave the queue alone.
    pub fn pop_due(&mut self, now: Timespec) -> (r: Option<HRTEntry<C>>)
        requires
            old(self).wf(),
        ensures
            final(self).wf(),
            match r {
                Some(e) => {
                    &&& old(self).list@.len() > 0
                    &&& e == old(self).list@[0]
                    &&& e.deadline.nanos() <= now.nanos()
                    &&& final(self).list@ == old(self).list@.remove(0)
                },
                None => {
                    &&& *final(self) == *old(self)
                    &&& (old(self).list@.len() == 0 || now.nanos() < old(self).list@[0].deadline.nanos())
                },
            },
    {
        if self.list.len() > 0 {
            if now.at_or_after(&self.list[0].deadline) {
                return Some(self.list.remove(0));
            }
        }
        None
    }

    /// How many nanoseconds the worker should sleep at `now`: one
    /// millisecond on an empty queue, nothing when the head is already
    /// due, and otherwise the time until the head's deadline, capped at
    /// one millisecond. The worker is also awakened early by the signal a
    /// producer sends when a new head entry arrives.
    pub fn next_sleep(&self, now: Timespec) -> (r: i64)
        ensures
            self.list@.len() == 0 ==> r == DURATION_1_MS,
            self.list@.len() > 0 ==> {
                let rem = self.list@[0].deadline.nanos() - now.nanos();
                if rem <= 0 {
                    r == 0
                } else if rem > DURATION_1_MS {
                    r == DURATION_1_MS
                } else {
                    r == rem
                }
            },
    {
        if self.list.len() == 0 {
            return DURATION_1_MS;
        }
        let head = &self.list[0];
        let rem: i128 = ((head.deadline.sec as i128) * 1_000_000_000 + (head.deadline.nsec as i128))
            - ((now.sec as i128) * 1_000_000_000 + (now.nsec as i128));
        if rem <= 0 {
            0
        } else if rem > DURATION_1_MS as i128 {
            DURATION_1_MS
        } else {
            rem as i64
        }
    }
}

/// If every entry before `i` has a deadline at or before `d` and the
/// entry at `i` (when there is one) lies strictly after `d`, then `i` is
/// the stable insertion position for deadline `d`.
proof fn lemma_hrt_insert_pos_found<C>(s: Seq<HRTEntry<C>>, d: int, i: int)
    requires
        0 <= i <= s.len(),
        forall|k: int| 0 <= k < i ==> #[trigger] s[k].deadline.nanos() <= d,
        i < s.len() ==> s[i].deadline.nanos() > d,
    ensures
        hrt_insert_pos(s, d) == i,
    decreases s.len(),
{
    if s.len() == 0 {
    } else if s[0].deadline.nanos() <= d {
        assert(i > 0);
        lemma_hrt_insert_pos_found(s.drop_first(), d, i - 1);
    } else {
        assert(i == 0);
    }
}

/// Inserting an entry at its stable position keeps the sequence sorted.
proof fn lemma_hrt_insert_pos_sorted_insert<C>(s: Seq<HRTEntry<C>>, entry: HRTEntry<C>, i: int)
    requires
        deadlines_sorted(s),
        0 <= i <= s.len(),
        forall|k: int| 0 <= k < i ==> #[trigger] s[k].deadline.nanos() <= entry.deadline.nanos(),
        i < s.len() ==> s[i].deadline.nanos() > entry.deadline.nanos(),
    ensures
        deadlines_sorted(s.insert(i, entry)),
{
    let t = s.insert(i, entry);
    assert forall|p: int, q: int| 0 <= p < q < t.len() implies #[trigger] t[p].deadline.nanos()
        <= #[trigger] t[q].deadline.nanos() by {
        if p < i && q < i {
        } else if p < i && q == i {
        } else if p < i && q > i {
            assert(s[p].deadline.nanos() <= s[q - 1].deadline.nanos());
        } else if p == i {
            assert(t[q] == s[q - 1]);
            assert(s[i].deadline.nanos() <= s[q - 1].deadline.nanos());
        } else {
            assert(t[p] == s[p - 1] && t[q] == s[q - 1]);
        }
    }
}

/// The stable insertion position splits any entry sequence exactly:
/// every entry before it has a deadline at or before `d`, and the entry
/// standing at it (when one does) lies strictly after `d`.
proof fn lemma_hrt_insert_pos_range<C>(s: Seq<HRTEntry<C>>, d: int)
    ensures
        0 <= hrt_insert_pos(s, d) <= s.len(),
        forall|k: int| 0 <= k < hrt_insert_pos(s, d) ==> #[trigger] s[k].deadline.nanos() <= d,
        hrt_insert_pos(s, d) < s.len() ==> s[hrt_insert_pos(s, d)].deadline.nanos() > d,
    decreases s.len(),
{
    if s.len() == 0 {
    } else if s[0].deadline.nanos() <= d {
        lemma_hrt_insert_pos_range(s.drop_first(), d);
        assert forall|k: int| 0 <= k < hrt_insert_pos(s, d) implies #[trigger] s[k].deadline.nanos()
            <= d by {
            if k > 0 {
                assert(s.drop_first()[k - 1] == s[k]);
            }
        }
    }
}

/// Adding an entry keeps every already queued entry with an equal or
/// earlier deadline ahead of the new one, and every strictly later one
/// behind it: entries with equal deadlines fire in insertion order, and
/// an insertion never reorders what was queued before it.
pub proof fn lemma_hrt_add_stable<C>(q: HRTQueue<C>, entry: HRTEntry<C>)
    requires
        q.wf(),
    ensures
        ({
            let pos = hrt_insert_pos(q.list@, entry.deadline.nanos());
            let added = q.list@.insert(pos, entry);
            &&& forall|k: int|
                0 <= k < pos ==> #[trigger] added[k] == q.list@[k]
                    && added[k].deadline.nanos() <= entry.deadline.nanos()
            &&& forall|k: int|
                pos < k < added.len() ==> #[trigger] added[k] == q.list@[k - 1]
                    && added[k].deadline.nanos() > entry.deadline.nanos()
        }),
{
    let d = entry.deadline.nanos();
    let pos = hrt_insert_pos(q.list@, d);
    lemma_hrt_insert_pos_range(q.list@, d);
    let added = q.list@.insert(pos, entry);
    assert forall|k: int| pos < k < added.len() implies #[trigger] added[k] == q.list@[k - 1]
        && added[k].deadline.nanos() > d by {
        assert(q.list@[pos].deadline.nanos() > d);
        if k - 1 > pos {
            assert(q.list@[pos].deadline.nanos() <= q.list@[k - 1].deadline.nanos());
        }
    }
}

/// In a well-formed queue an entry with a strictly earlier deadline
/// stands strictly closer to the front, and the worker pops entries from
/// the front: of two queued entries, the one with the earlier deadline
/// fires first.
pub proof fn lemma_hrt_fire_order<C>(q: HRTQueue<C>, i: int, j: int)
    requires
        q.wf(),
        0 <= i < q.list@.len(),
        0 <= j < q.list@.len(),
        q.list@[i].deadline.nanos() < q.list@[j].deadline.nanos(),
    ensures
        i < j,
{
    if i >= j {
        if i == j {
        } else {
            assert(q.list@[j].deadline.nanos() <= q.list@[i].deadline.nanos());
        }
    }
}

impl PartialOrd for Timespec {
    /// Instants are ordered by total nanosecond count, never field by
    /// field, so unnormalized values compare correctly.
    fn partial_cmp(&self, other: &Self) -> (r: Option<core::cmp::Ordering>) {
        let a: i128 = (self.sec as i128) * 1_000_000_000 + (self.nsec as i128);
        let b: i128 = (other.sec as i128) * 1_000_000_000 + (other.nsec as i128);
        if a < b {
            Some(core::cmp::Ordering::Less)
        } else if a == b {
            Some(core::cmp::Ordering::Equal)
        } else {
            Some(core::cmp::Ordering::Greater)
        }
    }
}

impl vstd::std_specs::cmp::PartialOrdSpecImpl for Timespec {
    open spec fn obeys_partial_cmp_spec() -> bool {
        true
    }

    open spec fn partial_cmp_spec(&self, other: &Self) -> Option<core::cmp::Ordering> {
        if self.nanos() < other.nanos() {
            Some(core::cmp::Ordering::Less)
        } else if self.nanos() == other.nanos() {
            Some(core::cmp::Ordering::Equal)
        } else {
            Some(core::cmp::Ordering::Greater)
        }
    }
}

} // verus!
