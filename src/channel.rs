//! A bounded "latest value wins" channel between periodic tasks.

use vstd::prelude::*;

verus! {

/// The pending values after `v` is sent into a channel of capacity `cap`
/// that held `pending`: when full, the oldest value is evicted first.
pub open spec fn sent<T>(pending: Seq<T>, cap: nat, v: T) -> Seq<T> {
    if pending.len() >= cap {
        pending.drop_first().push(v)
    } else {
        pending.push(v)
    }
}

/// The value a consumer observes: the most recently sent one, if any.
pub open spec fn newest<T>(pending: Seq<T>) -> Option<T> {
    if pending.len() == 0 {
        None
    } else {
        Some(pending.last())
    }
}

/// A fixed-capacity queue whose `send` never blocks: a full channel drops
/// its oldest value. Consumers read the newest value.
pub struct LatestValueChannel<T> {
    slots: Vec<T>,
    capacity: usize,
}

impl<T: Copy> LatestValueChannel<T> {
    /// The values sent and not yet received, oldest first.
    pub closed spec fn pending(&self) -> Seq<T> {
        self.slots@
    }

    pub closed spec fn cap(&self) -> nat {
        self.capacity as nat
    }

    pub closed spec fn wf(&self) -> bool {
        &&& 1 <= self.capacity
        &&& self.slots@.len() <= self.capacity
    }

    /// An empty channel holding at most `capacity` values.
    pub fn new(capacity: usize) -> (r: Self)
        requires
            capacity >= 1,
        ensures
            r.wf(),
            r.pending() == Seq::<T>::empty(),
            r.cap() == capacity,
    {
        LatestValueChannel { slots: Vec::new(), capacity }
    }

    pub fn capacity(&self) -> (r: usize)
        ensures
            r == self.cap(),
    {
        self.capacity
    }

    pub fn len(&self) -> (r: usize)
        ensures
            r == self.pending().len(),
    {
        self.slots.len()
    }

    /// Sends `v`, evicting the oldest pending value if the channel is full.
    pub fn send(&mut self, v: T)
        requires
            old(self).wf(),
        ensures
            final(self).wf(),
            final(self).cap() == old(self).cap(),
            final(self).pending() == sent(old(self).pending(), old(self).cap(), v),
    {
        if self.slots.len() >= self.capacity {
            self.slots.remove(0);
        }
        self.slots.push(v);
        proof {
            let p = old(self).pending();
            if p.len() >= self.cap() {
                assert(self.slots@ =~= p.drop_first().push(v));
            } else {
                assert(self.slots@ =~= p.push(v));
            }
        }
    }

    /// Drops every pending value.
    pub fn clear(&mut self)
        requires
            old(self).wf(),
        ensures
            final(self).wf(),
            final(self).cap() == old(self).cap(),
            final(self).pending() == Seq::<T>::empty(),
    {
        self.slots.clear();
    }

    /// The newest pending value, left in place.
    pub fn try_peek(&self) -> (r: Option<T>)
        ensures
            r == newest(self.pending()),
    {
        let n = self.slots.len();
        if n == 0 {
            None
        } else {
            Some(self.slots[n - 1])
        }
    }

    /// Takes the newest pending value; the older ones are stale and dropped
    /// with it.
    pub fn try_receive(&mut self) -> (r: Option<T>)
        requires
            old(self).wf(),
        ensures
            final(self).wf(),
            final(self).cap() == old(self).cap(),
            r == newest(old(self).pending()),
            final(self).pending() == Seq::<T>::empty(),
    {
        let r = self.try_peek();
        self.slots.clear();
        r
    }
}

/// Sending three values in succession into a channel of capacity one leaves
/// exactly the third observable, whatever the channel held before.
pub proof fn lemma_single_slot_overwrite<T>(pending: Seq<T>, v1: T, v2: T, v3: T)
    requires
        pending.len() <= 1,
    ensures
        sent(sent(sent(pending, 1, v1), 1, v2), 1, v3) == seq![v3],
        newest(sent(sent(sent(pending, 1, v1), 1, v2), 1, v3)) == Some(v3),
{
    let s1 = sent(pending, 1, v1);
    let s2 = sent(s1, 1, v2);
    assert(s1.len() == 1);
    assert(s2 =~= seq![v2]);
    assert(sent(s2, 1, v3) =~= seq![v3]);
}

/// A sent value is always what the next peek or receive observes.
pub proof fn lemma_newest_is_last_sent<T>(pending: Seq<T>, cap: nat, v: T)
    requires
        cap >= 1,
        pending.len() <= cap,
    ensures
        newest(sent(pending, cap, v)) == Some(v),
        sent(pending, cap, v).len() <= cap,
{
}

} // verus!
