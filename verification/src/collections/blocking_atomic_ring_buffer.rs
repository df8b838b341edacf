use vstd::prelude::*;

use crate::collections::ring_buffer::{filter_by, RingBuffer};

verus! {

/// A spin lock around a value, modelled as an ownership protocol.
///
/// Locking moves the value into the returned guard and marks the lock taken;
/// handing the guard back restores the value and frees the lock. Locking a
/// taken lock would spin forever, so `lock` asks for a free one.
pub struct Mutex<T> {
    locked: bool,
    data: Option<T>,
}

/// Exclusive access to the value of a locked [`Mutex`].
pub struct MutexGuard<T> {
    data: T,
}

impl<T> Mutex<T> {
    /// The value is inside exactly when the lock is free.
    pub closed spec fn wf(&self) -> bool {
        self.locked <==> self.data is None
    }

    pub closed spec fn is_locked(&self) -> bool {
        self.locked
    }

    /// The protected value, while the lock is free.
    pub closed spec fn value(&self) -> T
        recommends
            !self.is_locked(),
    {
        self.data->0
    }

    pub fn new(data: T) -> (r: Mutex<T>)
        ensures
            r.wf(),
            !r.is_locked(),
            r.value() == data,
    {
        Mutex { locked: false, data: Some(data) }
    }

    /// Takes the lock and hands out the value.
    pub fn lock(&mut self) -> (g: MutexGuard<T>)
        requires
            old(self).wf(),
            !old(self).is_locked(),
        ensures
            final(self).wf(),
            final(self).is_locked(),
            g.value() == old(self).value(),
    {
        let d = self.data.take();
        self.locked = true;
        match d {
            Some(data) => MutexGuard { data },
            None => vstd::pervasive::unreached(),
        }
    }

    /// Releases the lock, putting back the value the guard holds: what
    /// dropping the guard does.
    pub fn unlock(&mut self, guard: MutexGuard<T>)
        requires
            old(self).wf(),
            old(self).is_locked(),
        ensures
            final(self).wf(),
            !final(self).is_locked(),
            final(self).value() == guard.value(),
    {
        self.data = Some(guard.data);
        self.locked = false;
    }

    pub fn into_inner(self) -> (r: T)
        requires
            self.wf(),
            !self.is_locked(),
        ensures
            r == self.value(),
    {
        match self.data {
            Some(d) => d,
            None => vstd::pervasive::unreached(),
        }
    }
}

impl<T> MutexGuard<T> {
    pub closed spec fn value(&self) -> T {
        self.data
    }

    pub fn deref(&self) -> (r: &T)
        ensures
            *r == self.value(),
    {
        &self.data
    }

    pub fn deref_mut(&mut self) -> (r: &mut T)
        ensures
            *r == old(self).value(),
            final(self).value() == *final(r),
    {
        &mut self.data
    }
}

impl<T> Mutex<Option<T>> {
    /// Under the lock, applies `f` to the value inside the option, if any.
    /// `f` takes the value and gives back its new value together with its
    /// result, as an update in place through `&mut` would.
    pub fn map<U, F: FnOnce(T) -> (T, U)>(&mut self, f: F) -> (r: Option<U>)
        requires
            old(self).wf(),
            !old(self).is_locked(),
            old(self).value() is Some ==> f.requires((old(self).value()->0,)),
        ensures
            final(self).wf(),
            !final(self).is_locked(),
            old(self).value() is None ==> r is None && final(self).value() is None,
            old(self).value() is Some ==> r is Some && final(self).value() is Some && f.ensures(
                (old(self).value()->0,),
                (final(self).value()->0, r->0),
            ),
    {
        let guard = self.lock();
        let MutexGuard { data } = guard;
        match data {
            Some(v) => {
                let (nv, u) = f(v);
                self.unlock(MutexGuard { data: Some(nv) });
                Some(u)
            },
            None => {
                self.unlock(MutexGuard { data: None });
                None
            },
        }
    }
}

/// A bounded FIFO queue whose every operation runs under a lock: each one
/// takes the lock, works on the ring, and hands the lock back. The queue
/// owns its lock and its ring, so operations take `&mut self`.
pub struct AtomicRingBuffer<T>(Mutex<RingBuffer<T>>);

impl<T: Copy> AtomicRingBuffer<T> {
    /// The lock is free and guards a well-formed ring.
    pub closed spec fn wf(&self) -> bool {
        &&& self.0.wf()
        &&& !self.0.is_locked()
        &&& self.0.value().wf()
    }

    pub closed spec fn capacity(&self) -> nat {
        self.0.value().capacity()
    }

    /// How many slots the ring has.
    pub closed spec fn slots(&self) -> nat {
        self.0.value().slots()
    }

    /// What the slot at the front of the ring holds; in a single-slot ring,
    /// whatever was last stored there.
    pub closed spec fn front_slot(&self) -> T {
        self.0.value().front_slot()
    }
}

impl<T: Copy> View for AtomicRingBuffer<T> {
    type V = Seq<T>;

    /// The queued elements, oldest first.
    closed spec fn view(&self) -> Seq<T> {
        self.0.value()@
    }
}

impl<T: Copy> AtomicRingBuffer<T> {
    /// Makes an empty queue whose ring starts out as a copy of `ring`;
    /// `ring.len() - 1` elements fit in it. A queue without slots holds
    /// nothing, and cannot be asked whether it is full or be added to.
    pub fn new(ring: &[T]) -> (r: AtomicRingBuffer<T>)
        ensures
            r.wf(),
            r@ == Seq::<T>::empty(),
            r.slots() == ring@.len(),
            r.capacity() == (if ring@.len() == 0 { 0 } else { ring@.len() - 1 }),
    {
        let mut slots: Vec<T> = Vec::new();
        let mut i: usize = 0;
        while i < ring.len()
            invariant
                i <= ring@.len(),
                slots@ == ring@.subrange(0, i as int),
            decreases ring@.len() - i,
        {
            slots.push(ring[i]);
            i = i + 1;
            assert(slots@ =~= ring@.subrange(0, i as int));
        }
        AtomicRingBuffer(Mutex::new(RingBuffer::new(slots)))
    }

    /// How many slots the ring has.
    pub fn slot_count(&mut self) -> (r: usize)
        requires
            old(self).wf(),
        ensures
            final(self).wf(),
            final(self)@ == old(self)@,
            final(self).capacity() == old(self).capacity(),
            final(self).slots() == old(self).slots(),
            r == old(self).slots(),
    {
        let guard = self.0.lock();
        let r = guard.deref().slot_count();
        self.0.unlock(guard);
        r
    }

    pub fn has_elements(&mut self) -> (r: bool)
        requires
            old(self).wf(),
        ensures
            final(self).wf(),
            final(self)@ == old(self)@,
            final(self).capacity() == old(self).capacity(),
            final(self).slots() == old(self).slots(),
            r == (old(self)@.len() > 0),
    {
        let guard = self.0.lock();
        let r = guard.deref().has_elements();
        self.0.unlock(guard);
        r
    }

    pub fn is_full(&mut self) -> (r: bool)
        requires
            old(self).wf(),
            old(self).slots() >= 1,
        ensures
            final(self).wf(),
            final(self)@ == old(self)@,
            final(self).capacity() == old(self).capacity(),
            final(self).slots() == old(self).slots(),
            r == (old(self)@.len() == old(self).capacity()),
    {
        let guard = self.0.lock();
        let r = guard.deref().is_full();
        self.0.unlock(guard);
        r
    }

    pub fn len(&mut self) -> (r: usize)
        requires
            old(self).wf(),
        ensures
            final(self).wf(),
            final(self)@ == old(self)@,
            final(self).capacity() == old(self).capacity(),
            final(self).slots() == old(self).slots(),
            r == old(self)@.len(),
    {
        let guard = self.0.lock();
        let r = guard.deref().len();
        self.0.unlock(guard);
        r
    }

    /// Adds `val` at the back, unless the queue is full.
    pub fn enqueue(&mut self, val: T) -> (r: bool)
        requires
            old(self).wf(),
            old(self).slots() >= 1,
        ensures
            final(self).wf(),
            final(self).capacity() == old(self).capacity(),
            final(self).slots() == old(self).slots(),
            r == (old(self)@.len() < old(self).capacity()),
            r ==> final(self)@ == old(self)@.push(val),
            !r ==> final(self)@ == old(self)@,
    {
        let mut guard = self.0.lock();
        let r = guard.deref_mut().enqueue(val);
        self.0.unlock(guard);
        r
    }

    /// Adds `val` at the back; when the queue is full, the oldest element
    /// makes room for it and is handed back.
    pub fn push(&mut self, val: T) -> (r: Option<T>)
        requires
            old(self).wf(),
            old(self).slots() >= 1,
        ensures
            final(self).wf(),
            final(self).capacity() == old(self).capacity(),
            final(self).slots() == old(self).slots(),
            old(self)@.len() < old(self).capacity() ==> r is None && final(self)@ == old(self)@.push(
                val,
            ),
            old(self)@.len() == old(self).capacity() && old(self).capacity() > 0 ==> r == Some(
                old(self)@[0],
            ) && final(self)@ == old(self)@.drop_first().push(val),
            old(self).capacity() == 0 ==> r == Some(old(self).front_slot()) && final(self)@ == Seq::<
                T,
            >::empty(),
    {
        let mut guard = self.0.lock();
        let r = guard.deref_mut().push(val);
        self.0.unlock(guard);
        r
    }

    /// Removes and returns the oldest element, if there is one.
    pub fn dequeue(&mut self) -> (r: Option<T>)
        requires
            old(self).wf(),
        ensures
            final(self).wf(),
            final(self).capacity() == old(self).capacity(),
            final(self).slots() == old(self).slots(),
            old(self)@.len() == 0 ==> r is None && final(self)@ == old(self)@,
            old(self)@.len() > 0 ==> r == Some(old(self)@[0]) && final(self)@ == old(
                self,
            )@.drop_first(),
    {
        let mut guard = self.0.lock();
        let r = guard.deref_mut().dequeue();
        self.0.unlock(guard);
        r
    }

    /// Drops every element.
    pub fn empty(&mut self)
        requires
            old(self).wf(),
        ensures
            final(self).wf(),
            final(self).capacity() == old(self).capacity(),
            final(self).slots() == old(self).slots(),
            final(self)@ == Seq::<T>::empty(),
    {
        let mut guard = self.0.lock();
        guard.deref_mut().empty();
        self.0.unlock(guard);
    }

    /// Keeps only the elements for which `f` returns true, in their order.
    pub fn retain<F: Fn(&T) -> bool>(&mut self, f: F)
        requires
            old(self).wf(),
            forall|x: &T| f.requires((x,)),
        ensures
            final(self).wf(),
            final(self).capacity() == old(self).capacity(),
            final(self).slots() == old(self).slots(),
            exists|keep: Seq<bool>|
                {
                    &&& keep.len() == old(self)@.len()
                    &&& forall|i: int|
                        0 <= i < keep.len() ==> f.ensures((&old(self)@[i],), #[trigger] keep[i])
                    &&& final(self)@ == filter_by(old(self)@, keep)
                },
    {
        let mut guard = self.0.lock();
        guard.deref_mut().retain(f);
        self.0.unlock(guard);
    }
}

/// A well-formed queue never holds more than its capacity.
pub proof fn lemma_queue_within_capacity<T: Copy>(q: &AtomicRingBuffer<T>)
    requires
        q.wf(),
    ensures
        q@.len() <= q.capacity(),
{
    crate::collections::ring_buffer::lemma_len_within_capacity(&q.0.value());
}

/// A queue over `n >= 1` slots holds at most `n - 1` elements, and one
/// without slots holds none.
pub proof fn lemma_queue_capacity_of_slots<T: Copy>(q: &AtomicRingBuffer<T>)
    ensures
        q.slots() >= 1 ==> q.capacity() + 1 == q.slots(),
        q.slots() == 0 ==> q.capacity() == 0,
{
    crate::collections::ring_buffer::lemma_capacity_of_slots(&q.0.value());
}

/// Locking and then handing the guard back unchanged leaves the mutex as it
/// was: free, with the same value.
pub proof fn lemma_lock_unlock_round_trip<T>(before: Mutex<T>, guard: MutexGuard<T>, after: Mutex<T>)
    requires
        before.wf(),
        !before.is_locked(),
        guard.value() == before.value(),
        after.wf(),
        !after.is_locked(),
        after.value() == guard.value(),
    ensures
        after == before,
{
}

/// The value a mutex holds after a run of lock-and-unlock rounds that start
/// from `v`, where round `i` writes `writes[i]` through its guard, or writes
/// nothing where that is `None`: the last value written, or `v`.
pub open spec fn last_written<T>(v: T, writes: Seq<Option<T>>) -> T
    decreases writes.len(),
{
    if writes.len() == 0 {
        v
    } else {
        match writes.last() {
            Some(w) => w,
            None => last_written(v, writes.drop_last()),
        }
    }
}

/// After any run of rounds, each taking the lock, writing through the guard
/// or not, and giving the guard back, the mutex holds the value written
/// last, or its first value when nothing was written: `states[i]` is the
/// mutex after `i` rounds.
pub proof fn lemma_mutex_keeps_last_write<T>(states: Seq<Mutex<T>>, writes: Seq<Option<T>>)
    requires
        states.len() == writes.len() + 1,
        forall|i: int| 0 <= i < states.len() ==> #[trigger] states[i].wf() && !states[i].is_locked(),
        forall|i: int|
            0 <= i < writes.len() ==> #[trigger] states[i + 1].value() == match writes[i] {
                Some(w) => w,
                None => states[i].value(),
            },
    ensures
        states[writes.len() as int].value() == last_written(states[0].value(), writes),
    decreases writes.len(),
{
    if writes.len() > 0 {
        let n = writes.len() - 1;
        let prefix = states.take(n + 1);
        assert forall|i: int| 0 <= i < prefix.len() implies #[trigger] prefix[i].wf() && !prefix[i].is_locked() by {
            assert(prefix[i] == states[i]);
        }
        assert forall|i: int| 0 <= i < writes.drop_last().len() implies #[trigger] prefix[i + 1].value() == match writes.drop_last()[i] {
            Some(w) => w,
            None => prefix[i].value(),
        } by {
            assert(prefix[i + 1] == states[i + 1]);
            assert(prefix[i] == states[i]);
            assert(writes.drop_last()[i] == writes[i]);
        }
        lemma_mutex_keeps_last_write(prefix, writes.drop_last());
        assert(prefix[n] == states[n]);
        assert(states[n + 1].value() == match writes[n] {
            Some(w) => w,
            None => states[n].value(),
        });
    }
}

} // verus!
