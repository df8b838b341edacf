//! A readers-writer spin lock, modelled as an ownership protocol.
//!
//! The first reader takes the writer flag on behalf of all readers and the
//! last one to leave gives it back; a writer takes the flag for itself and,
//! in this model, the value with it. Taking a lock that another holder keeps
//! would spin forever, so each acquiring operation asks for a lock it can
//! have.

use vstd::prelude::*;

use crate::collections::blocking_atomic_ring_buffer::Mutex;

verus! {

pub struct RwLock<T> {
    readers: Mutex<usize>,
    writer_locked: bool,
    data: Option<T>,
}

/// The right of one reader to look at the value of a [`RwLock`].
pub struct RwLockReadGuard;

/// Exclusive access to the value of a [`RwLock`].
pub struct RwLockWriteGuard<T> {
    data: T,
}

impl<T> RwLock<T> {
    /// The reader count is only ever changed under its own lock, which is
    /// free between operations; readers and a writer never overlap, and the
    /// writer flag is set exactly while one of them holds the lock.
    pub closed spec fn wf(&self) -> bool {
        &&& self.readers.wf()
        &&& !self.readers.is_locked()
        &&& !(self.readers.value() > 0 && self.data is None)
        &&& self.writer_locked == (self.readers.value() > 0 || self.data is None)
    }

    /// How many readers hold the lock.
    pub closed spec fn readers(&self) -> nat {
        self.readers.value() as nat
    }

    /// Whether a writer holds the lock.
    pub closed spec fn has_writer(&self) -> bool {
        self.data is None
    }

    /// Whether the writer flag is set, by the readers or by a writer.
    pub closed spec fn is_write_locked(&self) -> bool {
        self.writer_locked
    }

    /// The protected value, while no writer holds it.
    pub closed spec fn value(&self) -> T
        recommends
            !self.has_writer(),
    {
        self.data->0
    }

    pub fn new(data: T) -> (r: RwLock<T>)
        ensures
            r.wf(),
            r.readers() == 0,
            !r.has_writer(),
            !r.is_write_locked(),
            r.value() == data,
    {
        RwLock { readers: Mutex::new(0), writer_locked: false, data: Some(data) }
    }

    /// The one step of the spin loop that finds the writer flag clear and
    /// sets it.
    fn acquire_writer_flag(&mut self)
        requires
            !old(self).writer_locked,
        ensures
            final(self).writer_locked,
            final(self).readers == old(self).readers,
            final(self).data == old(self).data,
    {
        self.writer_locked = true;
    }

    /// Joins the readers; the first reader takes the writer flag.
    pub fn read(&mut self) -> (g: RwLockReadGuard)
        requires
            old(self).wf(),
            !old(self).has_writer(),
            old(self).readers() < usize::MAX,
        ensures
            final(self).wf(),
            final(self).readers() == old(self).readers() + 1,
            !final(self).has_writer(),
            final(self).is_write_locked(),
            final(self).value() == old(self).value(),
    {
        let mut readers = self.readers.lock();
        let count = *readers.deref() + 1;
        *readers.deref_mut() = count;
        if count == 1 {
            self.acquire_writer_flag();
        }
        self.readers.unlock(readers);
        RwLockReadGuard
    }

    /// Takes the lock for writing, with the value.
    pub fn write(&mut self) -> (g: RwLockWriteGuard<T>)
        requires
            old(self).wf(),
            !old(self).is_write_locked(),
        ensures
            final(self).wf(),
            final(self).has_writer(),
            final(self).readers() == 0,
            final(self).is_write_locked(),
            g.value() == old(self).value(),
    {
        self.acquire_writer_flag();
        match self.data.take() {
            Some(data) => RwLockWriteGuard { data },
            None => vstd::pervasive::unreached(),
        }
    }

    /// The value, as one of the readers sees it.
    pub fn read_value(&self, guard: &RwLockReadGuard) -> (r: &T)
        requires
            self.wf(),
            self.readers() > 0,
        ensures
            *r == self.value(),
    {
        match &self.data {
            Some(data) => data,
            None => vstd::pervasive::unreached(),
        }
    }

    /// A reader leaves, as dropping its guard does; the last reader clears
    /// the writer flag.
    pub fn read_unlock(&mut self, guard: RwLockReadGuard)
        requires
            old(self).wf(),
            old(self).readers() > 0,
        ensures
            final(self).wf(),
            final(self).readers() == old(self).readers() - 1,
            !final(self).has_writer(),
            final(self).is_write_locked() == (final(self).readers() > 0),
            final(self).value() == old(self).value(),
    {
        let mut readers = self.readers.lock();
        let count = *readers.deref() - 1;
        *readers.deref_mut() = count;
        if count == 0 {
            self.writer_locked = false;
        }
        self.readers.unlock(readers);
    }

    /// The writer leaves, as dropping its guard does, putting back the value
    /// it holds.
    pub fn write_unlock(&mut self, guard: RwLockWriteGuard<T>)
        requires
            old(self).wf(),
            old(self).has_writer(),
        ensures
            final(self).wf(),
            !final(self).has_writer(),
            final(self).readers() == 0,
            !final(self).is_write_locked(),
            final(self).value() == guard.value(),
    {
        self.data = Some(guard.data);
        self.writer_locked = false;
    }
}

impl<T> RwLockWriteGuard<T> {
    pub closed spec fn value(&self) -> T {
        self.data
    }

    pub fn deref(&self) -> (r: &T)
        ensures
            *r == self.value(),
    {
        &self.data
    }

    pub fn deref_mut(&mut self) -> (r: &mut T)
        ensures
            *r == old(self).value(),
            final(self).value() == *final(r),
    {
        &mut self.data
    }
}

/// Readers and a writer never hold the lock together, and while any reader
/// holds it the writer flag keeps writers out.
pub proof fn lemma_readers_exclude_writer<T>(l: &RwLock<T>)
    requires
        l.wf(),
    ensures
        !(l.readers() > 0 && l.has_writer()),
        l.readers() > 0 ==> l.is_write_locked(),
        l.has_writer() ==> l.is_write_locked(),
        !l.is_write_locked() ==> l.readers() == 0 && !l.has_writer(),
{
}

/// A reader joining and then leaving gives back the lock as it found it.
pub proof fn lemma_read_round_trip<T>(before: RwLock<T>, during: RwLock<T>, after: RwLock<T>)
    requires
        before.wf(),
        during.wf(),
        after.wf(),
        !before.has_writer(),
        during.readers() == before.readers() + 1,
        !during.has_writer(),
        during.value() == before.value(),
        after.readers() == during.readers() - 1,
        !after.has_writer(),
        after.value() == during.value(),
    ensures
        after.readers() == before.readers(),
        after.is_write_locked() == before.is_write_locked(),
        after.value() == before.value(),
{
}

} // verus!
