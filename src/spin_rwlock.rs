//! Reader/writer spin lock: one signed reader count beside the value.
//!
//! The count is `0` when the lock is free, `-1` while a writer holds it, and
//! the number of readers otherwise. A writer moves it from `0` to `-1`; a
//! reader moves it from the count it saw to one more, unless it saw `-1`.
use vstd::prelude::*;

verus! {

use crate::backoff::{Backoff, DEFAULT_SPIN_LIMIT, MIN_SPIN_LIMIT, MAX_SPIN_LIMIT};

/// The count while a writer holds the lock.
pub const WRITE_LOCKED: isize = -1;

/// The count of a free lock.
pub const UNLOCKED: isize = 0;

/// What a reader that saw `current` asks for: `None` to back off and look
/// again, as a writer holds the lock; else the count to compare-and-exchange
/// `current` for.
pub open spec fn read_request(current: int) -> Option<int> {
    if current == WRITE_LOCKED {
        None
    } else {
        Some(current + 1)
    }
}

/// Decides a reader's next move from the count it saw.
pub fn read_step(current: isize) -> (r: Option<isize>)
    requires
        current < isize::MAX,
    ensures
        r is Some <==> read_request(current as int) is Some,
        r is Some ==> r->0 == read_request(current as int)->0,
{
    if current == WRITE_LOCKED {
        None
    } else {
        Some(current + 1)
    }
}

/// A read guard; the lock is held until it is handed back to `release_read`.
pub struct SpinRwLockReadGuardEx {
    taken: (),
}

/// A write guard; the lock is held until it is handed back to `release_write`.
pub struct SpinRwLockWriteGuardEx {
    taken: (),
}

/// A reader/writer spin lock over a value of type `T`.
pub struct SpinRwLockEx<T> {
    data: T,
    readers: isize,
    spin_limit: isize,
}

impl<T> SpinRwLockEx<T> {
    pub closed spec fn value(&self) -> T {
        self.data
    }

    /// The reader count.
    pub closed spec fn count(&self) -> int {
        self.readers as int
    }

    /// The spin limit of the backoff that retry loops on this lock use.
    pub closed spec fn limit(&self) -> int {
        self.spin_limit as int
    }

    pub open spec fn wf(&self) -> bool {
        &&& MIN_SPIN_LIMIT <= self.limit() <= MAX_SPIN_LIMIT
        &&& self.count() >= WRITE_LOCKED
    }

    /// A free lock over `val`.
    pub fn new(val: T) -> (r: Self)
        ensures
            r.wf(),
            r.value() == val,
            r.count() == UNLOCKED,
            r.limit() == DEFAULT_SPIN_LIMIT,
    {
        SpinRwLockEx { data: val, readers: UNLOCKED, spin_limit: DEFAULT_SPIN_LIMIT }
    }

    /// A free lock over `val` whose retry loops use `spin_limit`.
    pub fn with_spin_limit(val: T, spin_limit: isize) -> (r: Self)
        requires
            MIN_SPIN_LIMIT <= spin_limit <= MAX_SPIN_LIMIT,
        ensures
            r.wf(),
            r.value() == val,
            r.count() == UNLOCKED,
            r.limit() == spin_limit,
    {
        SpinRwLockEx { data: val, readers: UNLOCKED, spin_limit }
    }

    /// A fresh backoff for a retry loop on this lock.
    pub fn backoff(&self) -> (r: Backoff)
        requires
            self.wf(),
        ensures
            r.wf(),
            r.limit() == self.limit(),
            r.current_step() == 1,
    {
        Backoff::with_spin_limit(self.spin_limit)
    }

    /// The reader count.
    pub fn readers(&self) -> (r: isize)
        ensures
            r == self.count(),
    {
        self.readers
    }

    /// The value, given up with the lock.
    pub fn into_inner(self) -> (r: T)
        ensures
            r == self.value(),
    {
        self.data
    }

    /// The value, reached without locking through exclusive access to the lock.
    pub fn get_mut(&mut self) -> (r: &mut T)
        ensures
            *r == old(self).value(),
            final(self).value() == *final(r),
            final(self).count() == old(self).count(),
            final(self).limit() == old(self).limit(),
    {
        &mut self.data
    }

    /// One compare-and-exchange of the count from `0` to `-1`.
    pub fn try_write(&mut self) -> (r: Option<SpinRwLockWriteGuardEx>)
        requires
            old(self).wf(),
        ensures
            final(self).wf(),
            r is Some <==> old(self).count() == UNLOCKED,
            final(self).count() == (if r is Some { WRITE_LOCKED as int } else { old(self).count() }),
            final(self).value() == old(self).value(),
            final(self).limit() == old(self).limit(),
    {
        if self.readers == UNLOCKED {
            self.readers = WRITE_LOCKED;
            Some(SpinRwLockWriteGuardEx { taken: () })
        } else {
            None
        }
    }

    /// Takes a write guard. While readers or a writer hold the lock this
    /// would spin until they release it, so the lock must be free.
    pub fn write(&mut self) -> (r: SpinRwLockWriteGuardEx)
        requires
            old(self).wf(),
            old(self).count() == UNLOCKED,
        ensures
            final(self).wf(),
            final(self).count() == WRITE_LOCKED,
            final(self).value() == old(self).value(),
            final(self).limit() == old(self).limit(),
    {
        self.readers = WRITE_LOCKED;
        SpinRwLockWriteGuardEx { taken: () }
    }

    /// Releases a write guard: the count goes back to `0`.
    pub fn release_write(&mut self, guard: SpinRwLockWriteGuardEx)
        requires
            old(self).wf(),
            old(self).count() == WRITE_LOCKED,
        ensures
            final(self).wf(),
            final(self).count() == UNLOCKED,
            final(self).value() == old(self).value(),
            final(self).limit() == old(self).limit(),
    {
        self.readers = UNLOCKED;
    }

    /// One attempt of a reader: it sees the count and, unless a writer holds
    /// the lock, raises it by one. The count must leave room for one more.
    pub fn try_read(&mut self) -> (r: Option<SpinRwLockReadGuardEx>)
        requires
            old(self).wf(),
            old(self).count() < isize::MAX,
        ensures
            final(self).wf(),
            r is Some <==> read_request(old(self).count()) is Some,
            r is Some ==> final(self).count() == read_request(old(self).count())->0,
            r is None ==> final(self).count() == old(self).count(),
            final(self).value() == old(self).value(),
            final(self).limit() == old(self).limit(),
    {
        let current = self.readers;
        match read_step(current) {
            Some(next) => {
                self.readers = next;
                Some(SpinRwLockReadGuardEx { taken: () })
            },
            None => None,
        }
    }

    /// Takes a read guard. While a writer holds the lock this would spin
    /// until it releases it, so no writer may hold it.
    pub fn read(&mut self) -> (r: SpinRwLockReadGuardEx)
        requires
            old(self).wf(),
            old(self).count() != WRITE_LOCKED,
            old(self).count() < isize::MAX,
        ensures
            final(self).wf(),
            final(self).count() == old(self).count() + 1,
            final(self).value() == old(self).value(),
            final(self).limit() == old(self).limit(),
    {
        self.readers = self.readers + 1;
        SpinRwLockReadGuardEx { taken: () }
    }

    /// Releases a read guard: the count goes down by one.
    pub fn release_read(&mut self, guard: SpinRwLockReadGuardEx)
        requires
            old(self).wf(),
            old(self).count() > 0,
        ensures
            final(self).wf(),
            final(self).count() == old(self).count() - 1,
            final(self).value() == old(self).value(),
            final(self).limit() == old(self).limit(),
    {
        self.readers = self.readers - 1;
    }

    /// The value, seen through a read guard.
    pub fn guarded(&self, guard: &SpinRwLockReadGuardEx) -> (r: &T)
        requires
            self.count() > 0,
        ensures
            *r == self.value(),
    {
        &self.data
    }

    /// The value, seen through a write guard.
    pub fn write_guarded(&self, guard: &SpinRwLockWriteGuardEx) -> (r: &T)
        requires
            self.count() == WRITE_LOCKED,
        ensures
            *r == self.value(),
    {
        &self.data
    }

    /// The value, changed through a write guard.
    pub fn guarded_mut(&mut self, guard: &SpinRwLockWriteGuardEx) -> (r: &mut T)
        requires
            old(self).count() == WRITE_LOCKED,
        ensures
            *r == old(self).value(),
            final(self).value() == *final(r),
            final(self).count() == WRITE_LOCKED,
            final(self).limit() == old(self).limit(),
    {
        &mut self.data
    }
}

/// What threads do to a reader/writer lock.
pub enum RwEvent {
    /// A writer's compare-and-exchange of the count from `0` to `-1`.
    WriteAttempt,
    /// A reader's attempt: it raises the count unless it is `-1`.
    ReadAttempt,
    /// A write guard is released.
    WriteRelease,
    /// A read guard is released.
    ReadRelease,
}

/// The count, with the live guards of each kind.
pub struct RwState {
    pub count: int,
    pub writers: nat,
    pub readers: nat,
}

pub open spec fn rw_enabled(s: RwState, e: RwEvent) -> bool {
    match e {
        RwEvent::WriteRelease => s.writers > 0,
        RwEvent::ReadRelease => s.readers > 0,
        _ => true,
    }
}

pub open spec fn rw_next(s: RwState, e: RwEvent) -> RwState {
    match e {
        RwEvent::WriteAttempt => if s.count == UNLOCKED {
            RwState { count: WRITE_LOCKED as int, writers: s.writers + 1, ..s }
        } else {
            s
        },
        RwEvent::ReadAttempt => match read_request(s.count) {
            Some(c) => RwState { count: c, readers: s.readers + 1, ..s },
            None => s,
        },
        RwEvent::WriteRelease => RwState { count: UNLOCKED as int, writers: (s.writers - 1) as nat, ..s },
        RwEvent::ReadRelease => RwState { count: s.count - 1, readers: (s.readers - 1) as nat, ..s },
    }
}

pub open spec fn rw_run_ok(s: RwState, es: Seq<RwEvent>) -> bool
    decreases es.len(),
{
    es.len() == 0 || (rw_enabled(s, es[0]) && rw_run_ok(rw_next(s, es[0]), es.drop_first()))
}

pub open spec fn rw_run(s: RwState, es: Seq<RwEvent>) -> RwState
    decreases es.len(),
{
    if es.len() == 0 {
        s
    } else {
        rw_run(rw_next(s, es[0]), es.drop_first())
    }
}

/// The count tells the live guards: `-1` with one writer and no reader,
/// else as many readers as it says and no writer.
pub open spec fn rw_inv(s: RwState) -> bool {
    if s.count == WRITE_LOCKED {
        s.writers == 1 && s.readers == 0
    } else {
        s.count >= 0 && s.writers == 0 && s.readers == s.count
    }
}

/// Readers and writers exclude each other: from a lock whose count tells
/// its live guards, after any run of attempts and releases, never are a
/// write guard and a read guard alive at once, nor two write guards; a
/// reader's attempt fails exactly while a writer holds the lock, and a
/// writer's exactly while any guard is alive, so read guards may coexist.
pub proof fn lemma_reader_writer_exclusion(s: RwState, es: Seq<RwEvent>)
    requires
        rw_inv(s),
        rw_run_ok(s, es),
    ensures
        rw_inv(rw_run(s, es)),
        !(rw_run(s, es).writers > 0 && rw_run(s, es).readers > 0),
        rw_run(s, es).writers <= 1,
        (rw_next(rw_run(s, es), RwEvent::ReadAttempt).readers == rw_run(s, es).readers)
            <==> rw_run(s, es).writers > 0,
        (rw_next(rw_run(s, es), RwEvent::WriteAttempt).writers == rw_run(s, es).writers)
            <==> (rw_run(s, es).writers > 0 || rw_run(s, es).readers > 0),
    decreases es.len(),
{
    if es.len() > 0 {
        lemma_reader_writer_exclusion(rw_next(s, es[0]), es.drop_first());
    }
}

} // verus!
