//! The latest-value message channel.
//!
//! A channel is a single slot holding the most recently published value
//! of type `T`, a version counter that grows by one on every publish, a
//! map of named publish callbacks (their payloads, of type `C`, are
//! opaque to the channel and are run by the embedding program before the
//! slot is updated), and one reference count per side. Senders overwrite
//! the slot; receivers remember the version they last saw and read the
//! slot when the counter has moved past it. In the running system the
//! channel state sits on the heap behind a lock shared by all handles;
//! here it is the explicit state the handles operate on.

use vstd::prelude::*;

verus! {

/// The sending half of a channel. Handles are cloned and dropped through
/// the channel itself, which keeps the reference counts.
pub struct Sender {}

impl Default for Sender {
    /// A detached sender handle, bound to no channel.
    fn default() -> Self {
        Sender {}
    }
}

/// The receiving half of a channel: remembers the version of the last
/// value this handle has read.
pub struct Receiver {
    pub last_cnt: u32,
}

impl Default for Receiver {
    /// A detached receiver handle that has seen no value yet.
    fn default() -> (r: Self)
        ensures
            r.last_cnt == 0,
    {
        Receiver { last_cnt: 0 }
    }
}

/// A latest-value channel: one slot, one version counter, named publish
/// callbacks, and a reference count per side.
pub struct Channel<T, C> {
    /// The latest published value; empty until the first publish.
    pub data: Option<T>,
    /// Named publish callbacks, names unique. The embedding program runs
    /// each callback with a borrow of the value about to be published,
    /// before the slot is updated.
    pub callbacks: Vec<(String, C)>,
    /// The version counter: the number of publishes so far.
    pub cnt: u32,
    /// How many sender handles point at this channel.
    pub sender_cnt: u32,
    /// How many receiver handles point at this channel.
    pub receiver_cnt: u32,
    /// Set when one side's last handle was dropped; the drop that finds
    /// it already set frees the channel.
    pub destroyed: bool,
}

/// The first index in `cbs` whose name reads `name`, or `cbs.len()` when
/// no entry carries that name.
pub open spec fn cb_find<C>(cbs: Seq<(String, C)>, name: Seq<char>) -> int
    decreases cbs.len(),
{
    if cbs.len() == 0 {
        0
    } else if cbs[0].0@ == name {
        0
    } else {
        1 + cb_find(cbs.drop_first(), name)
    }
}

/// Some entry of `cbs` carries the name `name`.
pub open spec fn cb_contains<C>(cbs: Seq<(String, C)>, name: Seq<char>) -> bool {
    cb_find(cbs, name) < cbs.len()
}

/// The callback map after removing the entry named `name`: unchanged
/// when no entry carries that name.
pub open spec fn cb_remove<C>(cbs: Seq<(String, C)>, name: Seq<char>) -> Seq<(String, C)> {
    if cb_contains(cbs, name) {
        cbs.remove(cb_find(cbs, name))
    } else {
        cbs
    }
}

/// No two entries of `cbs` carry the same name.
pub open spec fn cb_names_unique<C>(cbs: Seq<(String, C)>) -> bool {
    forall|i: int, j: int| 0 <= i < j < cbs.len() ==> #[trigger] cbs[i].0@ != #[trigger] cbs[j].0@
}

impl<T, C> Channel<T, C> {
    /// The channel invariant: the slot is filled exactly from the first
    /// publish on, callback names are unique, and the destroyed flag is
    /// only ever set once a side has no handles left.
    pub open spec fn wf(&self) -> bool {
        &&& self.data.is_some() <==> self.cnt > 0
        &&& cb_names_unique(self.callbacks@)
        &&& self.destroyed ==> (self.sender_cnt == 0 || self.receiver_cnt == 0)
    }

    /// A fresh channel with one sender and one receiver handle: empty
    /// slot, version zero, no callbacks, both reference counts one.
    pub fn new() -> (r: (Channel<T, C>, Sender, Receiver))
        ensures
            r.0.wf(),
            r.0.data.is_none(),
            r.0.callbacks@.len() == 0,
            r.0.cnt == 0,
            r.0.sender_cnt == 1,
            r.0.receiver_cnt == 1,
            !r.0.destroyed,
            r.2.last_cnt == 0,
    {
        let channel = Channel {
            data: None,
            callbacks: Vec::new(),
            cnt: 0,
            sender_cnt: 1,
            receiver_cnt: 1,
            destroyed: false,
        };
        (channel, Sender {}, Receiver { last_cnt: 0 })
    }

    /// Publish `msg`: overwrite the slot and advance the version counter
    /// by one. Nothing else about the channel changes. The embedding
    /// program has already run the registered callbacks on a borrow of
    /// `msg` and broadcasts the channel's condition variable afterwards.
    pub fn write(&mut self, msg: T)
        requires
            old(self).wf(),
            old(self).cnt < u32::MAX,
        ensures
            final(self).wf(),
            *final(self) == after_write(*old(self), msg),
            final(self).data == Some(msg),
            final(self).cnt == old(self).cnt + 1,
            final(self).callbacks@ == old(self).callbacks@,
            final(self).sender_cnt == old(self).sender_cnt,
            final(self).receiver_cnt == old(self).receiver_cnt,
            final(self).destroyed == old(self).destroyed,
    {
        self.data = Some(msg);
        self.cnt = self.cnt + 1;
    }

    /// Whether a version newer than `last_cnt` has been published: the
    /// condition a blocked reader in the embedding program re-checks
    /// each time the channel's condition variable is signalled.
    pub fn wait_for_update(&self, last_cnt: u32) -> (r: bool)
        ensures
            r == (self.cnt != last_cnt),
    {
        self.cnt != last_cnt
    }

    /// Find the index of the callback named `name`, or the number of
    /// callbacks when no such entry exists.
    fn find_callback(&self, name: &str) -> (r: usize)
        ensures
            r == cb_find(self.callbacks@, name@),
    {
        let key: String = name.to_owned();
        let mut i: usize = 0;
        while i < self.callbacks.len()
            invariant
                0 <= i <= self.callbacks@.len(),
                key@ == name@,
                forall|k: int| 0 <= k < i ==> #[trigger] self.callbacks@[k].0@ != name@,
            ensures
                0 <= i <= self.callbacks@.len(),
                forall|k: int| 0 <= k < i ==> #[trigger] self.callbacks@[k].0@ != name@,
                i < self.callbacks@.len() ==> self.callbacks@[i as int].0@ == name@,
            decreases self.callbacks@.len() - i,
        {
            if self.callbacks[i].0 == key {
                break;
            }
            i += 1;
        }
        proof {
            lemma_cb_find_at(self.callbacks@, name@, i as int);
        }
        i
    }

    /// Install `callback` under `name`, replacing any callback already
    /// registered under that name.
    pub fn register_callback(&mut self, name: &str, callback: C)
        requires
            old(self).wf(),
        ensures
            final(self).wf(),
            final(self).callbacks@.len() == cb_remove(old(self).callbacks@, name@).len() + 1,
            final(self).callbacks@.drop_last() == cb_remove(old(self).callbacks@, name@),
            final(self).callbacks@.last().0@ == name@,
            final(self).callbacks@.last().1 == callback,
            cb_contains(final(self).callbacks@, name@),
            final(self).data == old(self).data,
            final(self).cnt == old(self).cnt,
            final(self).sender_cnt == old(self).sender_cnt,
            final(self).receiver_cnt == old(self).receiver_cnt,
            final(self).destroyed == old(self).destroyed,
    {
        self.unregister_callback(name);
        let ghost removed = self.callbacks@;
        let key: String = name.to_owned();
        self.callbacks.push((key, callback));
        proof {
            assert(self.callbacks@.drop_last() =~= removed);
            lemma_cb_remove_erases(old(self).callbacks@, name@);
            assert forall|i: int, j: int| 0 <= i < j < self.callbacks@.len() implies #[trigger] self.callbacks@[i].0@
                != #[trigger] self.callbacks@[j].0@ by {
                if j == self.callbacks@.len() - 1 {
                    assert(removed[i].0@ != name@);
                }
            }
            assert(self.callbacks@[self.callbacks@.len() - 1].0@ == name@);
            lemma_cb_find_contains(self.callbacks@, name@);
        }
    }

    /// Remove the callback registered under `name`; without one, the
    /// callback map is left as it stands.
    pub fn unregister_callback(&mut self, name: &str)
        requires
            old(self).wf(),
        ensures
            final(self).wf(),
            final(self).callbacks@ == cb_remove(old(self).callbacks@, name@),
            !cb_contains(final(self).callbacks@, name@),
            final(self).data == old(self).data,
            final(self).cnt == old(self).cnt,
            final(self).sender_cnt == old(self).sender_cnt,
            final(self).receiver_cnt == old(self).receiver_cnt,
            final(self).destroyed == old(self).destroyed,
    {
        let i = self.find_callback(name);
        if i < self.callbacks.len() {
            self.callbacks.remove(i);
        }
        proof {
            lemma_cb_remove_erases(old(self).callbacks@, name@);
            lemma_cb_find_contains(self.callbacks@, name@);
        }
    }
}

/// If every entry before `i` misses `name` and the entry at `i` (when
/// there is one) carries it, then `i` is where `cb_find` points.
pub(crate) proof fn lemma_cb_find_at<C>(cbs: Seq<(String, C)>, name: Seq<char>, i: int)
    requires
        0 <= i <= cbs.len(),
        forall|k: int| 0 <= k < i ==> #[trigger] cbs[k].0@ != name,
        i < cbs.len() ==> cbs[i].0@ == name,
    ensures
        cb_find(cbs, name) == i,
    decreases cbs.len(),
{
    if cbs.len() == 0 {
    } else if cbs[0].0@ == name {
        assert(i == 0);
    } else {
        lemma_cb_find_at(cbs.drop_first(), name, i - 1);
    }
}

/// When callback names are unique, removing the entry named `name`
/// leaves a map with unique names in which `name` no longer occurs.
pub(crate) proof fn lemma_cb_remove_erases<C>(cbs: Seq<(String, C)>, name: Seq<char>)
    requires
        cb_names_unique(cbs),
    ensures
        cb_names_unique(cb_remove(cbs, name)),
        forall|k: int|
            0 <= k < cb_remove(cbs, name).len() ==> #[trigger] cb_remove(cbs, name)[k].0@ != name,
    decreases cbs.len(),
{
    lemma_cb_find_range(cbs, name);
    if cb_contains(cbs, name) {
        let i = cb_find(cbs, name);
        let rem = cbs.remove(i);
        cbs.remove_ensures(i);
        assert forall|k: int| 0 <= k < rem.len() implies #[trigger] rem[k].0@ != name by {
            if k < i {
                lemma_cb_find_before(cbs, name, k);
            } else {
                assert(rem[k] == cbs[k + 1]);
                assert(cbs[i].0@ == name);
                assert(cbs[i].0@ != cbs[k + 1].0@);
            }
        }
        assert forall|p: int, q: int| 0 <= p < q < rem.len() implies #[trigger] rem[p].0@
            != #[trigger] rem[q].0@ by {
            let p0: int = if p < i { p } else { p + 1 };
            let q0: int = if q < i { q } else { q + 1 };
            assert(rem[p] == cbs[p0]);
            assert(rem[q] == cbs[q0]);
            assert(cbs[p0].0@ != cbs[q0].0@);
        }
    } else {
        assert forall|k: int| 0 <= k < cbs.len() implies #[trigger] cbs[k].0@ != name by {
            lemma_cb_find_before(cbs, name, k);
        }
    }
}

/// `cb_find` stays within `[0, cbs.len()]` and points at an entry
/// carrying `name` whenever it lies inside the sequence.
pub(crate) proof fn lemma_cb_find_range<C>(cbs: Seq<(String, C)>, name: Seq<char>)
    ensures
        0 <= cb_find(cbs, name) <= cbs.len(),
        cb_find(cbs, name) < cbs.len() ==> cbs[cb_find(cbs, name)].0@ == name,
    decreases cbs.len(),
{
    if cbs.len() == 0 {
    } else if cbs[0].0@ == name {
    } else {
        lemma_cb_find_range(cbs.drop_first(), name);
    }
}

/// Entries before the index `cb_find` points at do not carry `name`.
pub(crate) proof fn lemma_cb_find_before<C>(cbs: Seq<(String, C)>, name: Seq<char>, k: int)
    requires
        0 <= k < cb_find(cbs, name),
    ensures
        cbs[k].0@ != name,
    decreases cbs.len(),
{
    lemma_cb_find_range(cbs, name);
    if cbs.len() == 0 {
    } else if cbs[0].0@ == name {
    } else {
        if k > 0 {
            lemma_cb_find_before(cbs.drop_first(), name, k - 1);
            assert(cbs.drop_first()[k - 1] == cbs[k]);
        }
    }
}

/// The channel state after a publish of `msg`: the slot holds `msg` and
/// the version counter has moved up by one.
pub open spec fn after_write<T, C>(c: Channel<T, C>, msg: T) -> Channel<T, C> {
    Channel { data: Some(msg), cnt: (c.cnt + 1) as u32, ..c }
}

/// The channel state after one more sender handle was cloned.
pub open spec fn after_clone_sender<T, C>(c: Channel<T, C>) -> Channel<T, C> {
    Channel { sender_cnt: (c.sender_cnt + 1) as u32, ..c }
}

/// The channel state after a sender handle was dropped: the count falls
/// by one and the destroyed flag is raised when the last sender went.
pub open spec fn after_drop_sender<T, C>(c: Channel<T, C>) -> Channel<T, C> {
    Channel {
        sender_cnt: (c.sender_cnt - 1) as u32,
        destroyed: c.destroyed || c.sender_cnt == 1,
        ..c
    }
}

/// Whether dropping a sender handle of channel `c` frees the channel:
/// the last sender goes and the receiver side was already gone.
pub open spec fn drop_sender_frees<T, C>(c: Channel<T, C>) -> bool {
    c.sender_cnt == 1 && c.destroyed
}

/// The channel state after one more receiver handle was cloned.
pub open spec fn after_clone_receiver<T, C>(c: Channel<T, C>) -> Channel<T, C> {
    Channel { receiver_cnt: (c.receiver_cnt + 1) as u32, ..c }
}

/// The channel state after a receiver handle was dropped; the mirror
/// image of [`after_drop_sender`].
pub open spec fn after_drop_receiver<T, C>(c: Channel<T, C>) -> Channel<T, C> {
    Channel {
        receiver_cnt: (c.receiver_cnt - 1) as u32,
        destroyed: c.destroyed || c.receiver_cnt == 1,
        ..c
    }
}

/// Whether dropping a receiver handle of channel `c` frees the channel.
pub open spec fn drop_receiver_frees<T, C>(c: Channel<T, C>) -> bool {
    c.receiver_cnt == 1 && c.destroyed
}

/// What a receiver that last saw version `last` takes from a `try_read`
/// on channel `c`: the slot value and the channel's version when a newer
/// publish exists, and no value with its own version kept otherwise.
pub open spec fn try_read_result<T, C>(c: Channel<T, C>, last: u32) -> (Option<T>, u32) {
    if last == c.cnt {
        (None, last)
    } else {
        (Some(c.data.unwrap()), c.cnt)
    }
}

/// After a publish, a receiver that had seen every earlier version reads
/// exactly the value most recently sent, and taking that version as its
/// own strictly raises the version it has seen. A second `try_read`
/// without a further publish yields nothing and leaves the receiver
/// unchanged: each publish is delivered at most once per receiver.
pub proof fn lemma_send_then_read_once<T, C>(c: Channel<T, C>, msg: T, last: u32)
    requires
        c.wf(),
        c.cnt < u32::MAX,
        last <= c.cnt,
    ensures
        ({
            let c1 = after_write(c, msg);
            let (r1, last1) = try_read_result(c1, last);
            let (r2, last2) = try_read_result(c1, last1);
            &&& c1.wf()
            &&& r1 == Some(msg)
            &&& last1 == c1.cnt
            &&& last1 > last
            &&& r2 == Option::<T>::None
            &&& last2 == last1
        }),
{
}

/// Cloning a sender and then dropping both handles leaves the channel in
/// exactly the state that dropping the single original handle leaves it
/// in: a clone/drop pair is invisible to the reference counts, to the
/// destroyed flag, and to whether the channel is freed.
pub proof fn lemma_clone_sender_balances<T, C>(c: Channel<T, C>)
    requires
        0 < c.sender_cnt < u32::MAX,
    ensures
        after_drop_sender(after_drop_sender(after_clone_sender(c))) == after_drop_sender(c),
        !drop_sender_frees(after_clone_sender(c)),
        drop_sender_frees(after_drop_sender(after_clone_sender(c))) == drop_sender_frees(c),
{
}

/// A channel is freed only when both sides' reference counts have
/// reached zero: the drop that frees is the one that takes the last
/// count of its own side to zero while the other side's count is
/// already zero.
pub proof fn lemma_freed_needs_both_sides_gone<T, C>(c: Channel<T, C>)
    requires
        c.wf(),
    ensures
        drop_sender_frees(c) ==> after_drop_sender(c).sender_cnt == 0 && c.receiver_cnt == 0,
        drop_receiver_frees(c) ==> after_drop_receiver(c).receiver_cnt == 0 && c.sender_cnt == 0,
{
}

/// When the last sender and the last receiver handle of a live channel
/// are dropped, exactly one of the two drops frees the channel — the
/// later one, whichever side it belongs to. The earlier drop only raises
/// the destroyed flag.
pub proof fn lemma_freed_exactly_once<T, C>(c: Channel<T, C>)
    requires
        c.wf(),
        c.sender_cnt == 1,
        c.receiver_cnt == 1,
        !c.destroyed,
    ensures
        !drop_sender_frees(c) && drop_receiver_frees(after_drop_sender(c)),
        !drop_receiver_frees(c) && drop_sender_frees(after_drop_receiver(c)),
{
}

/// Registering a callback under a name the channel does not carry and
/// then unregistering that name restores the callback map exactly, so a
/// later publish runs the same callbacks as before the registration.
pub proof fn lemma_register_unregister_roundtrip<C>(
    cbs: Seq<(String, C)>,
    name: Seq<char>,
    entry: (String, C),
)
    requires
        cb_names_unique(cbs),
        !cb_contains(cbs, name),
        entry.0@ == name,
    ensures
        cb_remove(cbs.push(entry), name) == cbs,
{
    let pushed = cbs.push(entry);
    assert forall|k: int| 0 <= k < cbs.len() implies #[trigger] pushed[k].0@ != name by {
        lemma_cb_find_before(cbs, name, k);
    }
    lemma_cb_find_at(pushed, name, cbs.len() as int);
    pushed.remove_ensures(cbs.len() as int);
    assert(cb_remove(pushed, name) =~= cbs);
}

/// `cb_contains` agrees with there being some entry carrying `name`.
pub(crate) proof fn lemma_cb_find_contains<C>(cbs: Seq<(String, C)>, name: Seq<char>)
    ensures
        cb_contains(cbs, name) <==> exists|k: int| 0 <= k < cbs.len() && #[trigger] cbs[k].0@ == name,
    decreases cbs.len(),
{
    lemma_cb_find_range(cbs, name);
    if cbs.len() == 0 {
    } else if cbs[0].0@ == name {
    } else {
        lemma_cb_find_contains(cbs.drop_first(), name);
        if exists|k: int| 0 <= k < cbs.len() && #[trigger] cbs[k].0@ == name {
            let k = choose|k: int| 0 <= k < cbs.len() && #[trigger] cbs[k].0@ == name;
            assert(k > 0);
            assert(cbs.drop_first()[k - 1].0@ == name);
        }
        if cb_contains(cbs, name) {
            let i = cb_find(cbs, name);
            assert(cbs[i].0@ == name);
        }
    }
}

impl<T, C> Channel<T, C> {
    /// A further sender handle: the sender-side reference count grows by
    /// one and nothing else about the channel changes.
    pub fn clone_sender(&mut self, _handle: &Sender) -> (r: Sender)
        requires
            old(self).sender_cnt > 0,
            old(self).sender_cnt < u32::MAX,
        ensures
            *final(self) == after_clone_sender(*old(self)),
            final(self).sender_cnt == old(self).sender_cnt + 1,
            final(self).receiver_cnt == old(self).receiver_cnt,
            final(self).data == old(self).data,
            final(self).cnt == old(self).cnt,
            final(self).callbacks@ == old(self).callbacks@,
            final(self).destroyed == old(self).destroyed,
    {
        self.sender_cnt = self.sender_cnt + 1;
        Sender {}
    }

    /// A further receiver handle, starting from the same last-seen
    /// version as `handle`: the receiver-side reference count grows by
    /// one and nothing else about the channel changes.
    pub fn clone_receiver(&mut self, handle: &Receiver) -> (r: Receiver)
        requires
            old(self).receiver_cnt > 0,
            old(self).receiver_cnt < u32::MAX,
        ensures
            *final(self) == after_clone_receiver(*old(self)),
            r.last_cnt == handle.last_cnt,
            final(self).receiver_cnt == old(self).receiver_cnt + 1,
            final(self).sender_cnt == old(self).sender_cnt,
            final(self).data == old(self).data,
            final(self).cnt == old(self).cnt,
            final(self).callbacks@ == old(self).callbacks@,
            final(self).destroyed == old(self).destroyed,
    {
        self.receiver_cnt = self.receiver_cnt + 1;
        Receiver { last_cnt: handle.last_cnt }
    }

    /// Drop a sender handle. When the last sender goes, the destroyed
    /// flag is raised; finding it already raised means the receiver side
    /// was gone first, and this drop — exactly one over the channel's
    /// life — returns true so the caller frees the channel's storage.
    pub fn drop_sender(&mut self, handle: Sender) -> (freed: bool)
        requires
            old(self).wf(),
            old(self).sender_cnt > 0,
        ensures
            final(self).wf(),
            *final(self) == after_drop_sender(*old(self)),
            freed == drop_sender_frees(*old(self)),
            final(self).sender_cnt == old(self).sender_cnt - 1,
            final(self).receiver_cnt == old(self).receiver_cnt,
            final(self).data == old(self).data,
            final(self).cnt == old(self).cnt,
            final(self).callbacks@ == old(self).callbacks@,
            final(self).destroyed == (old(self).destroyed || old(self).sender_cnt == 1),
            freed == (old(self).sender_cnt == 1 && old(self).destroyed),
    {
        let _ = handle;
        self.sender_cnt = self.sender_cnt - 1;
        if self.sender_cnt == 0 {
            let was_destroyed = self.destroyed;
            self.destroyed = true;
            was_destroyed
        } else {
            false
        }
    }

    /// Drop a receiver handle; the mirror image of [`Self::drop_sender`]
    /// for the receiver side.
    pub fn drop_receiver(&mut self, handle: Receiver) -> (freed: bool)
        requires
            old(self).wf(),
            old(self).receiver_cnt > 0,
        ensures
            final(self).wf(),
            *final(self) == after_drop_receiver(*old(self)),
            freed == drop_receiver_frees(*old(self)),
            final(self).receiver_cnt == old(self).receiver_cnt - 1,
            final(self).sender_cnt == old(self).sender_cnt,
            final(self).data == old(self).data,
            final(self).cnt == old(self).cnt,
            final(self).callbacks@ == old(self).callbacks@,
            final(self).destroyed == (old(self).destroyed || old(self).receiver_cnt == 1),
            freed == (old(self).receiver_cnt == 1 && old(self).destroyed),
    {
        let _ = handle;
        self.receiver_cnt = self.receiver_cnt - 1;
        if self.receiver_cnt == 0 {
            let was_destroyed = self.destroyed;
            self.destroyed = true;
            was_destroyed
        } else {
            false
        }
    }
}

impl Sender {
    /// Publish `data` on the channel this handle belongs to; see
    /// [`Channel::write`].
    pub fn send<T, C>(&self, channel: &mut Channel<T, C>, data: T)
        requires
            old(channel).wf(),
            old(channel).cnt < u32::MAX,
        ensures
            final(channel).wf(),
            final(channel).data == Some(data),
            final(channel).cnt == old(channel).cnt + 1,
            final(channel).callbacks@ == old(channel).callbacks@,
            final(channel).sender_cnt == old(channel).sender_cnt,
            final(channel).receiver_cnt == old(channel).receiver_cnt,
            final(channel).destroyed == old(channel).destroyed,
    {
        channel.write(data);
    }
}

impl Receiver {
    /// Read the latest value, assuming a publish this handle has not
    /// seen yet: the point a blocking reader reaches once
    /// [`Channel::wait_for_update`] reports a new version. Returns a
    /// clone of the slot and remembers its version, which is strictly
    /// larger than the one remembered before.
    pub fn read<T: Clone, C>(&mut self, channel: &Channel<T, C>) -> (r: T)
        requires
            channel.wf(),
            old(self).last_cnt <= channel.cnt,
            old(self).last_cnt != channel.cnt,
        ensures
            cloned(channel.data.unwrap(), r),
            final(self).last_cnt == channel.cnt,
            final(self).last_cnt > old(self).last_cnt,
    {
        let (cnt, data) = channel.read();
        self.last_cnt = cnt;
        data
    }

    /// Read the latest value if a publish this handle has not seen yet
    /// exists; otherwise report the absence of news and change nothing.
    pub fn try_read<T: Clone, C>(&mut self, channel: &Channel<T, C>) -> (r: Option<T>)
        requires
            channel.wf(),
            old(self).last_cnt <= channel.cnt,
        ensures
            final(self).last_cnt == try_read_result(*channel, old(self).last_cnt).1,
            r.is_some() == try_read_result(*channel, old(self).last_cnt).0.is_some(),
            old(self).last_cnt == channel.cnt ==> {
                &&& r.is_none()
                &&& final(self).last_cnt == old(self).last_cnt
            },
            old(self).last_cnt != channel.cnt ==> {
                &&& r.is_some()
                &&& cloned(channel.data.unwrap(), r.unwrap())
                &&& final(self).last_cnt == channel.cnt
            },
    {
        if self.last_cnt == channel.cnt {
            return None;
        }
        let (cnt, data) = channel.read();
        self.last_cnt = cnt;
        Some(data)
    }
}

impl Receiver {
    /// Install `callback` under `name` on this handle's channel; see
    /// [`Channel::register_callback`].
    pub fn register_callback<T, C>(&self, channel: &mut Channel<T, C>, name: &str, callback: C)
        requires
            old(channel).wf(),
        ensures
            final(channel).wf(),
            final(channel).callbacks@.len() == cb_remove(old(channel).callbacks@, name@).len() + 1,
            final(channel).callbacks@.drop_last() == cb_remove(old(channel).callbacks@, name@),
            final(channel).callbacks@.last().0@ == name@,
            final(channel).callbacks@.last().1 == callback,
            final(channel).data == old(channel).data,
            final(channel).cnt == old(channel).cnt,
            final(channel).sender_cnt == old(channel).sender_cnt,
            final(channel).receiver_cnt == old(channel).receiver_cnt,
            final(channel).destroyed == old(channel).destroyed,
    {
        channel.register_callback(name, callback);
    }

    /// Remove the callback registered under `name` on this handle's
    /// channel; see [`Channel::unregister_callback`].
    pub fn unregister_callback<T, C>(&self, channel: &mut Channel<T, C>, name: &str)
        requires
            old(channel).wf(),
        ensures
            final(channel).wf(),
            final(channel).callbacks@ == cb_remove(old(channel).callbacks@, name@),
            final(channel).data == old(channel).data,
            final(channel).cnt == old(channel).cnt,
            final(channel).sender_cnt == old(channel).sender_cnt,
            final(channel).receiver_cnt == old(channel).receiver_cnt,
            final(channel).destroyed == old(channel).destroyed,
    {
        channel.unregister_callback(name);
    }
}

impl<T: Clone, C> Channel<T, C> {
    /// The current version together with a clone of the slot contents.
    pub fn read(&self) -> (r: (u32, T))
        requires
            self.wf(),
            self.cnt > 0,
        ensures
            r.0 == self.cnt,
            cloned(self.data.unwrap(), r.1),
    {
        match &self.data {
            Some(v) => (self.cnt, v.clone()),
            None => unreached(),
        }
    }
}

} // verus!
