use vstd::prelude::*;

verus! {

/// The slot that follows `i` in a ring of `len` slots.
pub open spec fn next_slot(i: int, len: int) -> int {
    if i + 1 == len { 0 } else { i + 1 }
}

proof fn lemma_mod_next(i: usize, len: usize)
    requires
        i < len,
    ensures
        ((i + 1) % (len as int)) == next_slot(i as int, len as int),
{
    if i + 1 == len {
        vstd::arithmetic::div_mod::lemma_mod_self_0(len as int);
    } else {
        vstd::arithmetic::div_mod::lemma_small_mod((i + 1) as nat, len as nat);
    }
}

/// A bounded first-in first-out queue stored in a fixed ring of slots.
///
/// A ring of `n` slots holds at most `n - 1` elements: one slot always stays
/// free so that a full ring can be told apart from an empty one. A ring of
/// no slots holds nothing; adding to it, or asking whether it is full,
/// would divide by zero, so those operations ask for a slot.
pub struct RingBuffer<T> {
    ring: Vec<T>,
    head: usize,
    tail: usize,
}

impl<T> RingBuffer<T> {
    /// The positions stay within the ring; a ring of no slots keeps both at
    /// zero.
    pub closed spec fn wf(&self) -> bool {
        if self.ring.len() == 0 {
            self.head == 0 && self.tail == 0
        } else {
            self.head < self.ring.len() && self.tail < self.ring.len()
        }
    }

    /// How many slots the ring has.
    pub closed spec fn slots(&self) -> nat {
        self.ring.len() as nat
    }

    spec fn count(&self) -> nat {
        if self.tail >= self.head {
            (self.tail - self.head) as nat
        } else {
            (self.ring.len() - self.head + self.tail) as nat
        }
    }

    /// The ring position of the `i`-th element from the front.
    spec fn slot(&self, i: int) -> int {
        if self.head + i < self.ring.len() {
            self.head + i
        } else {
            self.head + i - self.ring.len()
        }
    }

    /// What the slot at the front of the ring holds; in a single-slot ring,
    /// whatever was last stored there.
    pub closed spec fn front_slot(&self) -> T {
        self.ring@[self.head as int]
    }

    /// The most elements the buffer holds at once: one less than its slots,
    /// or none without slots.
    pub closed spec fn capacity(&self) -> nat {
        if self.ring.len() == 0 {
            0
        } else {
            (self.ring.len() - 1) as nat
        }
    }
}

impl<T> View for RingBuffer<T> {
    type V = Seq<T>;

    /// The queued elements, oldest first.
    closed spec fn view(&self) -> Seq<T> {
        Seq::new(self.count(), |i: int| self.ring@[self.slot(i)])
    }
}

/// `s` with exactly the elements at the positions where `keep` holds, in order.
pub open spec fn filter_by<T>(s: Seq<T>, keep: Seq<bool>) -> Seq<T>
    recommends
        s.len() == keep.len(),
    decreases s.len(),
{
    if s.len() == 0 {
        Seq::empty()
    } else {
        let rest = filter_by(s.drop_last(), keep.drop_last());
        if keep.last() {
            rest.push(s.last())
        } else {
            rest
        }
    }
}

impl<T: Copy> RingBuffer<T> {
    /// Makes an empty buffer over the given slots.
    pub fn new(ring: Vec<T>) -> (r: Self)
        ensures
            r.wf(),
            r@ == Seq::<T>::empty(),
            r.slots() == ring.len(),
            r.capacity() == (if ring.len() == 0 { 0 } else { ring.len() - 1 }),
    {
        let r = RingBuffer { ring, head: 0, tail: 0 };
        assert(r@ =~= Seq::<T>::empty());
        r
    }

    /// How many slots the ring has.
    pub fn slot_count(&self) -> (r: usize)
        ensures
            r == self.slots(),
    {
        self.ring.len()
    }

    /// The oldest element, left in place, if there is one.
    pub fn peek(&self) -> (r: Option<T>)
        requires
            self.wf(),
        ensures
            self@.len() == 0 ==> r is None,
            self@.len() > 0 ==> r == Some(self@[0]),
    {
        if self.head != self.tail {
            Some(self.ring[self.head])
        } else {
            None
        }
    }

    pub fn has_elements(&self) -> (r: bool)
        requires
            self.wf(),
        ensures
            r == (self@.len() > 0),
    {
        self.head != self.tail
    }

    pub fn is_full(&self) -> (r: bool)
        requires
            self.wf(),
            self.slots() >= 1,
        ensures
            r == (self@.len() == self.capacity()),
    {
        proof {
            lemma_mod_next(self.tail, self.ring.len());
        }
        self.head == (self.tail + 1) % self.ring.len()
    }

    pub fn len(&self) -> (r: usize)
        requires
            self.wf(),
        ensures
            r == self@.len(),
    {
        if self.tail > self.head {
            self.tail - self.head
        } else if self.tail < self.head {
            (self.ring.len() - self.head) + self.tail
        } else {
            0
        }
    }

    /// Adds `val` at the back, unless the buffer is full.
    pub fn enqueue(&mut self, val: T) -> (r: bool)
        requires
            old(self).wf(),
            old(self).slots() >= 1,
        ensures
            final(self).wf(),
            r == (old(self)@.len() < old(self).capacity()),
            r ==> final(self)@ == old(self)@.push(val),
            !r ==> final(self)@ == old(self)@,
            final(self).capacity() == old(self).capacity(),
            final(self).slots() == old(self).slots(),
    {
        if self.is_full() {
            false
        } else {
            let len = self.ring.len();
            let tail = self.tail;
            proof { lemma_mod_next(tail, len); }
            self.ring.set(tail, val);
            self.tail = (tail + 1) % len;
            assert(self@ =~= old(self)@.push(val));
            true
        }
    }

    /// Adds `val` at the back; when the buffer is full, the oldest element
    /// makes room for it and is handed back.
    pub fn push(&mut self, val: T) -> (r: Option<T>)
        requires
            old(self).wf(),
            old(self).slots() >= 1,
        ensures
            final(self).wf(),
            old(self)@.len() < old(self).capacity() ==> r is None && final(self)@ == old(self)@.push(
                val,
            ),
            old(self)@.len() == old(self).capacity() && old(self).capacity() > 0 ==> r == Some(
                old(self)@[0],
            ) && final(self)@ == old(self)@.drop_first().push(val),
            old(self).capacity() == 0 ==> r == Some(old(self).front_slot()) && final(self)@ == Seq::<
                T,
            >::empty(),
            final(self).capacity() == old(self).capacity(),
            final(self).slots() == old(self).slots(),
    {
        let len = self.ring.len();
        let result = if self.is_full() {
            let head = self.head;
            proof { lemma_mod_next(head, len); }
            let v = self.ring[head];
            self.head = (head + 1) % len;
            Some(v)
        } else {
            None
        };
        let ghost mid = self@;
        let tail = self.tail;
        proof { lemma_mod_next(tail, len); }
        self.ring.set(tail, val);
        self.tail = (tail + 1) % len;
        proof {
            if old(self).capacity() > 0 {
                if old(self)@.len() == old(self).capacity() {
                    assert(mid =~= old(self)@.drop_first());
                } else {
                    assert(mid =~= old(self)@);
                }
                assert(self@ =~= mid.push(val));
            } else {
                assert(self@ =~= Seq::<T>::empty());
            }
        }
        result
    }

    /// Removes and returns the oldest element, if there is one.
    pub fn dequeue(&mut self) -> (r: Option<T>)
        requires
            old(self).wf(),
        ensures
            final(self).wf(),
            old(self)@.len() == 0 ==> r is None && final(self)@ == old(self)@,
            old(self)@.len() > 0 ==> r == Some(old(self)@[0]) && final(self)@ == old(
                self,
            )@.drop_first(),
            final(self).capacity() == old(self).capacity(),
            final(self).slots() == old(self).slots(),
    {
        if self.has_elements() {
            let len = self.ring.len();
            let head = self.head;
            proof { lemma_mod_next(head, len); }
            let v = self.ring[head];
            self.head = (head + 1) % len;
            assert(self@ =~= old(self)@.drop_first());
            Some(v)
        } else {
            None
        }
    }

    /// Drops every element.
    pub fn empty(&mut self)
        requires
            old(self).wf(),
        ensures
            final(self).wf(),
            final(self)@ == Seq::<T>::empty(),
            final(self).capacity() == old(self).capacity(),
            final(self).slots() == old(self).slots(),
    {
        self.head = 0;
        self.tail = 0;
        assert(self@ =~= Seq::<T>::empty());
    }
}


impl<T: Copy> RingBuffer<T> {
    proof fn lemma_slot_facts(&self)
        requires
            self.wf(),
            self.slots() >= 1,
        ensures
            self.count() < self.ring.len(),
            self.slot(self.count() as int) == self.tail,
            forall|i: int| 0 <= i < self.ring.len() ==> 0 <= #[trigger] self.slot(i) < self.ring.len(),
            forall|i: int, j: int|
                0 <= i < self.ring.len() && 0 <= j < self.ring.len() && i != j ==> #[trigger] self.slot(i)
                    != #[trigger] self.slot(j),
    {
    }

    /// Keeps only the elements for which `f` returns true, in their order.
    pub fn retain<F: Fn(&T) -> bool>(&mut self, f: F)
        requires
            old(self).wf(),
            forall|x: &T| f.requires((x,)),
        ensures
            final(self).wf(),
            final(self).capacity() == old(self).capacity(),
            final(self).slots() == old(self).slots(),
            exists|keep: Seq<bool>|
                {
                    &&& keep.len() == old(self)@.len()
                    &&& forall|i: int|
                        0 <= i < keep.len() ==> f.ensures((&old(self)@[i],), #[trigger] keep[i])
                    &&& final(self)@ == filter_by(old(self)@, keep)
                },
    {
        proof {
            if self.ring.len() >= 1 {
                self.lemma_slot_facts();
            }
        }
        let len = self.ring.len();
        let mut src = self.head;
        let mut dst = self.head;
        let ghost old_view = self@;
        let ghost count = self.count();
        let ghost mut keep: Seq<bool> = Seq::empty();
        let ghost mut k: int = 0;
        while src != self.tail
            invariant
                self.wf(),
                len == self.ring.len(),
                self.head == old(self).head,
                self.tail == old(self).tail,
                self.ring.len() == old(self).ring.len(),
                count == old(self).count(),
                old_view == old(self)@,
                old_view.len() == count,
                forall|x: &T| f.requires((x,)),
                0 <= k <= count,
                keep.len() == k,
                len >= 1 ==> src < len,
                len >= 1 ==> dst < len,
                len == 0 ==> count == 0 && src == 0 && dst == 0,
                src == self.slot(k),
                filter_by(old_view.take(k), keep).len() <= k,
                dst == self.slot(filter_by(old_view.take(k), keep).len() as int),
                forall|m: int|
                    0 <= m < filter_by(old_view.take(k), keep).len() ==> self.ring@[self.slot(m)]
                        == #[trigger] filter_by(old_view.take(k), keep)[m],
                forall|m: int| k <= m < count ==> self.ring@[self.slot(m)] == #[trigger] old_view[m],
                forall|i: int| 0 <= i < k ==> f.ensures((&old_view[i],), #[trigger] keep[i]),
            decreases count - k,
        {
            proof {
                assert(len >= 1);
                self.lemma_slot_facts();
                if k == count {
                    assert(src == self.tail);
                }
            }
            let ghost kept = filter_by(old_view.take(k), keep);
            let v = self.ring[src];
            assert(v == old_view[k]);
            let b = f(&v);
            proof {
                lemma_mod_next(src, len);
                lemma_mod_next(dst, len);
            }
            if b {
                self.ring.set(dst, v);
                dst = (dst + 1) % len;
            }
            src = (src + 1) % len;
            proof {
                let nk = keep.push(b);
                assert(old_view.take(k + 1).drop_last() =~= old_view.take(k));
                assert(nk.drop_last() =~= keep);
                assert(old_view.take(k + 1).last() == old_view[k]);
                let nkept = filter_by(old_view.take(k + 1), nk);
                if b {
                    assert(nkept =~= kept.push(v));
                } else {
                    assert(nkept =~= kept);
                }
                keep = nk;
                k = k + 1;
            }
        }
        proof {
            if len >= 1 {
                self.lemma_slot_facts();
            }
            if k < count {
                assert(self.slot(k) != self.slot(count as int));
            }
            assert(old_view.take(k) =~= old_view);
        }
        let ghost kept = filter_by(old_view, keep);
        self.tail = dst;
        proof {
            assert(self.count() == kept.len());
            assert(self@ =~= kept);
        }
    }
}

/// The capacity is one less than the slots, and zero without slots.
pub proof fn lemma_capacity_of_slots<T>(b: &RingBuffer<T>)
    ensures
        b.slots() >= 1 ==> b.capacity() + 1 == b.slots(),
        b.slots() == 0 ==> b.capacity() == 0,
{
}

/// A well-formed buffer never holds more than its capacity.
pub proof fn lemma_len_within_capacity<T: Copy>(b: &RingBuffer<T>)
    requires
        b.wf(),
    ensures
        b@.len() <= b.capacity(),
{
}

/// On a non-empty queue, enqueueing and dequeueing commute: either order
/// hands out the same front element and leaves the same contents.
pub proof fn lemma_enqueue_dequeue_commute<T>(q: Seq<T>, x: T)
    requires
        q.len() > 0,
    ensures
        q.push(x)[0] == q[0],
        q.push(x).drop_first() == q.drop_first().push(x),
{
    assert(q.push(x).drop_first() =~= q.drop_first().push(x));
}

/// Filtering keeps at most the elements it was given, and keeps all of them
/// when every one is kept.
pub proof fn lemma_filter_by_bounds<T>(s: Seq<T>, keep: Seq<bool>)
    requires
        s.len() == keep.len(),
    ensures
        filter_by(s, keep).len() <= s.len(),
        (forall|i: int| 0 <= i < keep.len() ==> keep[i]) ==> filter_by(s, keep) == s,
    decreases s.len(),
{
    if s.len() > 0 {
        lemma_filter_by_bounds(s.drop_last(), keep.drop_last());
        if forall|i: int| 0 <= i < keep.len() ==> keep[i] {
            assert(forall|i: int| 0 <= i < keep.drop_last().len() ==> keep.drop_last()[i]
                == keep[i]);
            assert(s.drop_last().push(s.last()) =~= s);
        }
    }
}

/// Enqueueing `xs` one after another into an empty queue leaves exactly
/// `xs` queued, in order: `states[i]` is the contents after the first `i`
/// enqueues.
pub proof fn lemma_enqueues_fill_in_order<T>(xs: Seq<T>, states: Seq<Seq<T>>)
    requires
        states.len() == xs.len() + 1,
        states[0] == Seq::<T>::empty(),
        forall|i: int| 0 <= i < xs.len() ==> #[trigger] states[i + 1] == states[i].push(xs[i]),
    ensures
        forall|i: int| 0 <= i <= xs.len() ==> #[trigger] states[i] == xs.take(i),
        states[xs.len() as int] == xs,
    decreases xs.len(),
{
    if xs.len() > 0 {
        let n = xs.len() - 1;
        lemma_enqueues_fill_in_order(xs.take(n), states.take(n + 1));
        assert forall|i: int| 0 <= i <= xs.len() implies #[trigger] states[i] == xs.take(i) by {
            if i <= n {
                assert(states.take(n + 1)[i] == states[i]);
                assert(xs.take(n).take(i) =~= xs.take(i));
            } else {
                assert(states.take(n + 1)[n] == states[n]);
                assert(xs.take(n).take(n) =~= xs.take(n));
                assert(states[n + 1] == states[n].push(xs[n]));
                assert(xs.take(n).push(xs[n]) =~= xs.take(i));
            }
        }
        assert(xs.take(xs.len() as int) =~= xs);
    } else {
        assert(xs.take(0) =~= xs);
    }
}

/// Dequeueing a queue until it is empty hands its elements out in order,
/// each once: `states[i]` is the contents before the `i`-th dequeue, which
/// returns the `i`-th element and leaves `s.len() - i - 1` behind.
pub proof fn lemma_dequeues_drain_in_order<T>(s: Seq<T>, states: Seq<Seq<T>>)
    requires
        states.len() == s.len() + 1,
        states[0] == s,
        forall|i: int| 0 <= i < s.len() ==> #[trigger] states[i + 1] == states[i].drop_first(),
    ensures
        forall|i: int| 0 <= i <= s.len() ==> #[trigger] states[i] == s.skip(i),
        forall|i: int| 0 <= i < s.len() ==> states[i].len() == s.len() - i && #[trigger] states[i][0] == s[i],
        states[s.len() as int].len() == 0,
{
    assert forall|i: int| 0 <= i <= s.len() implies #[trigger] states[i] == s.skip(i) by {
        lemma_drain_step(s, states, i);
    }
    assert forall|i: int| 0 <= i < s.len() implies states[i].len() == s.len() - i && #[trigger] states[i][0] == s[i] by {
        lemma_drain_step(s, states, i);
    }
    lemma_drain_step(s, states, s.len() as int);
}

proof fn lemma_drain_step<T>(s: Seq<T>, states: Seq<Seq<T>>, i: int)
    requires
        states.len() == s.len() + 1,
        states[0] == s,
        forall|j: int| 0 <= j < s.len() ==> #[trigger] states[j + 1] == states[j].drop_first(),
        0 <= i <= s.len(),
    ensures
        states[i] == s.skip(i),
    decreases i,
{
    if i == 0 {
        assert(s.skip(0) =~= s);
    } else {
        let j = i - 1;
        lemma_drain_step(s, states, j);
        assert(states[j + 1] == states[j].drop_first());
        assert(s.skip(i - 1).drop_first() =~= s.skip(i));
    }
}

} // verus!
