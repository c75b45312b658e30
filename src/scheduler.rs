use vstd::prelude::*;
use crate::resource::ObjectKey;

verus! {

/// The identities held by a list of keys.
pub open spec fn key_views(v: Seq<ObjectKey>) -> Seq<(Seq<char>, Seq<char>)> {
    v.map_values(|k: ObjectKey| k@)
}

/// Position of `key` in `keys`, if it is there.
fn position(keys: &Vec<ObjectKey>, key: &ObjectKey) -> (r: Option<usize>)
    ensures
        r matches Some(i) ==> i < keys@.len() && key_views(keys@)[i as int] == key@,
        r is None ==> !key_views(keys@).contains(key@),
{
    let mut i: usize = 0;
    while i < keys.len()
        invariant
            i <= keys@.len(),
            forall|j: int| 0 <= j < i ==> key_views(keys@)[j] != key@,
        decreases keys@.len() - i,
    {
        if keys[i].same(key) {
            return Some(i);
        }
        i = i + 1;
    }
    None
}

/// A work queue that serializes reconciliation per key: notifications for a
/// key wait, coalesced into one, while that key is being reconciled; distinct
/// keys run side by side.
#[derive(Debug)]
pub struct WorkQueue {
    /// Keys whose reconciliation has started and not yet completed.
    pub in_flight: Vec<ObjectKey>,
    /// Keys notified and waiting, in order of first notification.
    pub pending: Vec<ObjectKey>,
}

pub struct QueueView {
    pub in_flight: Seq<(Seq<char>, Seq<char>)>,
    pub pending: Seq<(Seq<char>, Seq<char>)>,
}

impl View for WorkQueue {
    type V = QueueView;

    open spec fn view(&self) -> QueueView {
        QueueView { in_flight: key_views(self.in_flight@), pending: key_views(self.pending@) }
    }
}

/// The queue after a notification for `k`: it waits once, however often it
/// was notified.
pub open spec fn notified(v: QueueView, k: (Seq<char>, Seq<char>)) -> QueueView {
    if v.pending.contains(k) {
        v
    } else {
        QueueView { pending: v.pending.push(k), ..v }
    }
}

/// Whether the waiting key at `i` may start: it is not in flight.
pub open spec fn can_start(v: QueueView, i: int) -> bool {
    0 <= i < v.pending.len() && !v.in_flight.contains(v.pending[i])
}

/// The queue after the waiting key at `i` has started.
pub open spec fn started(v: QueueView, i: int) -> QueueView {
    QueueView { in_flight: v.in_flight.push(v.pending[i]), pending: v.pending.remove(i) }
}

impl WorkQueue {
    /// No key is in flight twice, and no key waits twice.
    pub open spec fn wf(&self) -> bool {
        self@.in_flight.no_duplicates() && self@.pending.no_duplicates()
    }

    pub fn new() -> (r: WorkQueue)
        ensures
            r.wf(),
            r@.in_flight.len() == 0,
            r@.pending.len() == 0,
    {
        let r = WorkQueue { in_flight: Vec::new(), pending: Vec::new() };
        assert(r@.in_flight =~= Seq::empty());
        assert(r@.pending =~= Seq::empty());
        r
    }

    /// Records a change notification for `key`: it joins the waiting keys
    /// unless it already waits there.
    pub fn notify(&mut self, key: ObjectKey)
        requires
            old(self).wf(),
        ensures
            final(self).wf(),
            final(self)@ == notified(old(self)@, key@),
            final(self)@.pending.contains(key@),
    {
        match position(&self.pending, &key) {
            Some(i) => {
                assert(self@.pending[i as int] == key@);
            },
            None => {
                let ghost before = self.pending@;
                self.pending.push(key);
                assert(key_views(self.pending@) =~= key_views(before).push(key@));
                assert(self@.pending[before.len() as int] == key@);
            },
        }
    }

    /// Starts the first waiting key that is not in flight, if any: it leaves
    /// the waiting keys and goes in flight.
    pub fn next(&mut self) -> (r: Option<ObjectKey>)
        requires
            old(self).wf(),
        ensures
            final(self).wf(),
            r is None ==> final(self)@ == old(self)@ && forall|j: int|
                0 <= j < old(self)@.pending.len() ==> old(self)@.in_flight.contains(
                    #[trigger] old(self)@.pending[j],
                ),
            r matches Some(k) ==> exists|i: int|
                can_start(old(self)@, i) && old(self)@.pending[i] == k@ && final(self)@ == started(
                    old(self)@,
                    i,
                ),
    {
        let mut i: usize = 0;
        while i < self.pending.len()
            invariant
                i <= self@.pending.len(),
                self.wf(),
                self@ == old(self)@,
                forall|j: int| 0 <= j < i ==> self@.in_flight.contains(#[trigger] self@.pending[j]),
            decreases self@.pending.len() - i,
        {
            if position(&self.in_flight, &self.pending[i]).is_none() {
                let ghost pending_before = self@.pending;
                let ghost flight_before = self@.in_flight;
                let key = self.pending.remove(i);
                let ghost kv = key@;
                assert(pending_before[i as int] == kv);
                assert(self@.pending =~= pending_before.remove(i as int));
                let out = key.duplicate();
                self.in_flight.push(key);
                assert(self@.in_flight =~= flight_before.push(kv));
                assert(can_start(old(self)@, i as int));
                assert(self@ == started(old(self)@, i as int));
                assert forall|a: int, b: int|
                    0 <= a < b < self@.pending.len() implies self@.pending[a] != self@.pending[b] by {
                    if a >= i {
                        assert(self@.pending[a] == pending_before[a + 1]);
                    }
                    if b >= i {
                        assert(self@.pending[b] == pending_before[b + 1]);
                    }
                }
                assert forall|a: int, b: int|
                    0 <= a < b < self@.in_flight.len() implies self@.in_flight[a]
                        != self@.in_flight[b] by {
                    if b == flight_before.len() {
                        assert(flight_before.contains(flight_before[a]));
                    }
                }
                return Some(out);
            }
            i = i + 1;
        }
        None
    }

    /// Marks the reconciliation of `key` as ended, successful or not.
    pub fn complete(&mut self, key: &ObjectKey)
        requires
            old(self).wf(),
        ensures
            final(self).wf(),
            !final(self)@.in_flight.contains(key@),
            final(self)@.pending == old(self)@.pending,
            forall|k: (Seq<char>, Seq<char>)|
                k != key@ ==> (final(self)@.in_flight.contains(k) <==> old(self)@.in_flight.contains(
                    k,
                )),
    {
        match position(&self.in_flight, key) {
            Some(i) => {
                let ghost before = self@.in_flight;
                self.in_flight.remove(i);
                assert(self@.in_flight =~= before.remove(i as int));
                assert forall|a: int, b: int|
                    0 <= a < b < self@.in_flight.len() implies self@.in_flight[a]
                        != self@.in_flight[b] by {
                    if a >= i {
                        assert(self@.in_flight[a] == before[a + 1]);
                    }
                    if b >= i {
                        assert(self@.in_flight[b] == before[b + 1]);
                    }
                }
                assert forall|k: (Seq<char>, Seq<char>)|
                    k != key@ implies (self@.in_flight.contains(k) <==> before.contains(k)) by {
                    if before.contains(k) {
                        let j = choose|j: int| 0 <= j < before.len() && before[j] == k;
                        if j < i {
                            assert(self@.in_flight[j] == k);
                        } else {
                            assert(j != i);
                            assert(self@.in_flight[j - 1] == k);
                        }
                    }
                }
                assert(!self@.in_flight.contains(key@)) by {
                    if self@.in_flight.contains(key@) {
                        let j = choose|j: int| 0 <= j < self@.in_flight.len() && self@.in_flight[j] == key@;
                        if j < i {
                            assert(before[j] == before[i as int]);
                        } else {
                            assert(before[j + 1] == before[i as int]);
                        }
                    }
                }
            },
            None => {},
        }
    }
}

} // verus!
