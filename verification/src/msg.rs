//! The named message registry.
//!
//! A registry binds names to channels. Registration creates a fresh
//! channel and keeps its canonical sender and receiver; a lookup hands
//! out a new clone of the stored handle, raising the channel's reference
//! count for that side. In the running system one process-wide registry
//! sits behind a readers/writer lock and is written only during program
//! initialization.

use vstd::prelude::*;

use crate::channel::{
    after_clone_receiver, after_clone_sender, cb_contains, cb_find, cb_names_unique, cb_remove,
    Channel, Receiver, Sender,
};
use crate::channel::{lemma_cb_find_at, lemma_cb_remove_erases};

verus! {

/// A registered message: the channel and its canonical pair of handles,
/// from which lookups clone fresh handles.
pub struct Message<T, C> {
    pub channel: Channel<T, C>,
    pub tx: Sender,
    pub rx: Receiver,
}

/// The message `m` with its channel counting one more sender handle.
pub open spec fn message_with_extra_sender<T, C>(m: Message<T, C>) -> Message<T, C> {
    Message { channel: after_clone_sender(m.channel), ..m }
}

/// The message `m` with its channel counting one more receiver handle.
pub open spec fn message_with_extra_receiver<T, C>(m: Message<T, C>) -> Message<T, C> {
    Message { channel: after_clone_receiver(m.channel), ..m }
}

/// The registry: names bound to messages, names unique.
pub struct MessageList<T, C> {
    pub data: Vec<(String, Message<T, C>)>,
}

impl<T, C> MessageList<T, C> {
    /// The registry invariant: unique names, and every stored channel
    /// well-formed, alive on both sides, and holding the canonical
    /// receiver at the version it was created with.
    pub open spec fn wf(&self) -> bool {
        &&& cb_names_unique(self.data@)
        &&& forall|i: int|
            0 <= i < self.data@.len() ==> {
                let m = #[trigger] self.data@[i].1;
                &&& m.channel.wf()
                &&& m.channel.sender_cnt > 0
                &&& m.channel.receiver_cnt > 0
                &&& !m.channel.destroyed
            }
    }

    /// An empty registry.
    pub fn new() -> (r: Self)
        ensures
            r.wf(),
            r.data@.len() == 0,
    {
        MessageList { data: Vec::new() }
    }

    /// Find the index of the message named `name`, or the number of
    /// registered messages when no such binding exists.
    fn find_message(&self, name: &str) -> (r: usize)
        ensures
            r == cb_find(self.data@, name@),
    {
        let key: String = name.to_owned();
        let mut i: usize = 0;
        while i < self.data.len()
            invariant
                0 <= i <= self.data@.len(),
                key@ == name@,
                forall|k: int| 0 <= k < i ==> #[trigger] self.data@[k].0@ != name@,
            ensures
                0 <= i <= self.data@.len(),
                forall|k: int| 0 <= k < i ==> #[trigger] self.data@[k].0@ != name@,
                i < self.data@.len() ==> self.data@[i as int].0@ == name@,
            decreases self.data@.len() - i,
        {
            if self.data[i].0 == key {
                break;
            }
            i += 1;
        }
        proof {
            lemma_cb_find_at(self.data@, name@, i as int);
        }
        i
    }

    /// The message registered under `name`, when one exists.
    pub fn get_message(&self, name: &str) -> (r: Option<&Message<T, C>>)
        ensures
            match r {
                Some(m) => {
                    &&& cb_contains(self.data@, name@)
                    &&& *m == self.data@[cb_find(self.data@, name@)].1
                },
                None => !cb_contains(self.data@, name@),
            },
    {
        let i = self.find_message(name);
        if i < self.data.len() {
            Some(&self.data[i].1)
        } else {
            None
        }
    }

    /// Bind `name` to a fresh channel, replacing any earlier binding of
    /// that name. The new channel starts empty at version zero with one
    /// canonical handle per side.
    pub fn add_message(&mut self, name: &str)
        requires
            old(self).wf(),
        ensures
            final(self).wf(),
            final(self).data@.len() == cb_remove(old(self).data@, name@).len() + 1,
            final(self).data@.drop_last() == cb_remove(old(self).data@, name@),
            final(self).data@.last().0@ == name@,
            ({
                let c = final(self).data@.last().1.channel;
                &&& c.data.is_none()
                &&& c.cnt == 0
                &&& c.callbacks@.len() == 0
                &&& c.sender_cnt == 1
                &&& c.receiver_cnt == 1
                &&& !c.destroyed
            }),
            final(self).data@.last().1.rx.last_cnt == 0,
    {
        let i = self.find_message(name);
        if i < self.data.len() {
            self.data.remove(i);
        }
        proof {
            lemma_cb_remove_erases(old(self).data@, name@);
        }
        let ghost removed = self.data@;
        let (channel, tx, rx) = Channel::new();
        let key: String = name.to_owned();
        self.data.push((key, Message { channel, tx, rx }));
        proof {
            assert(self.data@.drop_last() =~= removed);
            assert forall|p: int, q: int| 0 <= p < q < self.data@.len() implies #[trigger] self.data@[p].0@
                != #[trigger] self.data@[q].0@ by {
                if q == self.data@.len() - 1 {
                    assert(removed[p].0@ != name@);
                }
            }
        }
    }

    /// A fresh sender handle for the channel registered under `name`:
    /// the stored sender is cloned, raising the channel's sender count
    /// by one. Without a binding of `name` nothing changes and no handle
    /// is returned; in the running system a binding of the wrong payload
    /// type answers the same way.
    pub fn get_new_tx_of_message(&mut self, name: &str) -> (r: Option<Sender>)
        requires
            old(self).wf(),
            forall|i: int|
                0 <= i < old(self).data@.len()
                    ==> (#[trigger] old(self).data@[i].1).channel.sender_cnt < u32::MAX,
        ensures
            final(self).wf(),
            r.is_some() == cb_contains(old(self).data@, name@),
            !cb_contains(old(self).data@, name@) ==> *final(self) == *old(self),
            cb_contains(old(self).data@, name@) ==> {
                let i = cb_find(old(self).data@, name@);
                final(self).data@ == old(self).data@.update(
                    i,
                    (old(self).data@[i].0, message_with_extra_sender(old(self).data@[i].1)),
                )
            },
    {
        let i = self.find_message(name);
        if i >= self.data.len() {
            return None;
        }
        let mut entry = self.data.remove(i);
        let tx = entry.1.channel.clone_sender(&entry.1.tx);
        self.data.insert(i, entry);
        proof {
            let s0 = old(self).data@;
            let j = cb_find(s0, name@) as int;
            assert(self.data@ =~= s0.update(
                j,
                (s0[j].0, message_with_extra_sender(s0[j].1)),
            ));
        }
        Some(tx)
    }

    /// A fresh receiver handle for the channel registered under `name`,
    /// starting from the canonical receiver's last-seen version; the
    /// receiver-side mirror of [`Self::get_new_tx_of_message`].
    pub fn get_new_rx_of_message(&mut self, name: &str) -> (r: Option<Receiver>)
        requires
            old(self).wf(),
            forall|i: int|
                0 <= i < old(self).data@.len()
                    ==> (#[trigger] old(self).data@[i].1).channel.receiver_cnt < u32::MAX,
        ensures
            final(self).wf(),
            r.is_some() == cb_contains(old(self).data@, name@),
            !cb_contains(old(self).data@, name@) ==> *final(self) == *old(self),
            cb_contains(old(self).data@, name@) ==> {
                let i = cb_find(old(self).data@, name@);
                &&& final(self).data@ == old(self).data@.update(
                    i,
                    (old(self).data@[i].0, message_with_extra_receiver(old(self).data@[i].1)),
                )
                &&& r.unwrap().last_cnt == old(self).data@[i].1.rx.last_cnt
            },
    {
        let i = self.find_message(name);
        if i >= self.data.len() {
            return None;
        }
        let mut entry = self.data.remove(i);
        let rx = entry.1.channel.clone_receiver(&entry.1.rx);
        self.data.insert(i, entry);
        proof {
            let s0 = old(self).data@;
            let j = cb_find(s0, name@) as int;
            assert(self.data@ =~= s0.update(
                j,
                (s0[j].0, message_with_extra_receiver(s0[j].1)),
            ));
        }
        Some(rx)
    }
}

} // verus!
