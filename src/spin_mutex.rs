//! Exclusive spin lock: one flag beside the value.
//!
//! Taking the lock moves the flag from `false` to `true` in one
//! compare-and-exchange; releasing stores `false`.
use vstd::prelude::*;

verus! {

use crate::backoff::{Backoff, DEFAULT_SPIN_LIMIT, MIN_SPIN_LIMIT, MAX_SPIN_LIMIT};

/// What one compare-and-exchange of the flag from `false` to `true` leaves:
/// the new flag, and whether the lock was taken.
pub open spec fn lock_attempt(locked: bool) -> (bool, bool) {
    (true, !locked)
}

/// A guard of the lock; the lock is held until it is handed back to `unlock`.
pub struct SpinMutexExGuard {
    taken: (),
}

/// An exclusive spin lock over a value of type `T`.
pub struct SpinMutexEx<T> {
    data: T,
    locked: bool,
    spin_limit: isize,
}

impl<T> SpinMutexEx<T> {
    pub closed spec fn value(&self) -> T {
        self.data
    }

    pub closed spec fn held(&self) -> bool {
        self.locked
    }

    /// The spin limit of the backoff that retry loops on this lock use.
    pub closed spec fn limit(&self) -> int {
        self.spin_limit as int
    }

    pub open spec fn wf(&self) -> bool {
        MIN_SPIN_LIMIT <= self.limit() <= MAX_SPIN_LIMIT
    }

    /// An unlocked lock over `val`.
    pub fn new(val: T) -> (r: Self)
        ensures
            r.wf(),
            r.value() == val,
            !r.held(),
            r.limit() == DEFAULT_SPIN_LIMIT,
    {
        SpinMutexEx { data: val, locked: false, spin_limit: DEFAULT_SPIN_LIMIT }
    }

    /// An unlocked lock over `val` whose retry loops use `spin_limit`.
    pub fn with_spin_limit(val: T, spin_limit: isize) -> (r: Self)
        requires
            MIN_SPIN_LIMIT <= spin_limit <= MAX_SPIN_LIMIT,
        ensures
            r.wf(),
            r.value() == val,
            !r.held(),
            r.limit() == spin_limit,
    {
        SpinMutexEx { data: val, locked: false, spin_limit }
    }

    /// A fresh backoff for a retry loop on this lock.
    pub fn backoff(&self) -> (r: Backoff)
        requires
            self.wf(),
        ensures
            r.wf(),
            r.limit() == self.limit(),
            r.current_step() == 1,
    {
        Backoff::with_spin_limit(self.spin_limit)
    }

    pub fn is_locked(&self) -> (r: bool)
        ensures
            r == self.held(),
    {
        self.locked
    }

    /// The value, given up with the lock.
    pub fn into_inner(self) -> (r: T)
        ensures
            r == self.value(),
    {
        self.data
    }

    /// The value, reached without locking through exclusive access to the lock.
    pub fn get_mut(&mut self) -> (r: &mut T)
        ensures
            *r == old(self).value(),
            final(self).value() == *final(r),
            final(self).held() == old(self).held(),
            final(self).limit() == old(self).limit(),
    {
        &mut self.data
    }

    /// One compare-and-exchange of the flag from `false` to `true`: the guard
    /// is had when the flag was `false`.
    pub fn try_lock(&mut self) -> (r: Option<SpinMutexExGuard>)
        ensures
            (final(self).held(), r is Some) == lock_attempt(old(self).held()),
            final(self).value() == old(self).value(),
            final(self).limit() == old(self).limit(),
    {
        if !self.locked {
            self.locked = true;
            Some(SpinMutexExGuard { taken: () })
        } else {
            None
        }
    }

    /// Takes the lock. On a held lock this would spin until the holder
    /// releases it, so the lock must be free.
    pub fn lock(&mut self) -> (r: SpinMutexExGuard)
        requires
            !old(self).held(),
        ensures
            final(self).held(),
            final(self).value() == old(self).value(),
            final(self).limit() == old(self).limit(),
    {
        self.locked = true;
        SpinMutexExGuard { taken: () }
    }

    /// Releases the lock: the flag goes back to `false`.
    pub fn unlock(&mut self, guard: SpinMutexExGuard)
        requires
            old(self).held(),
        ensures
            !final(self).held(),
            final(self).value() == old(self).value(),
            final(self).limit() == old(self).limit(),
    {
        self.locked = false;
    }

    /// The value, seen through the guard.
    pub fn guarded(&self, guard: &SpinMutexExGuard) -> (r: &T)
        requires
            self.held(),
        ensures
            *r == self.value(),
    {
        &self.data
    }

    /// The value, changed through the guard.
    pub fn guarded_mut(&mut self, guard: &SpinMutexExGuard) -> (r: &mut T)
        requires
            old(self).held(),
        ensures
            *r == old(self).value(),
            final(self).value() == *final(r),
            final(self).held(),
            final(self).limit() == old(self).limit(),
    {
        &mut self.data
    }
}

/// What threads do to a lock that guards a counter.
pub enum MutexEvent {
    /// A compare-and-exchange of the flag; it takes the lock only when the
    /// flag was `false`.
    Attempt,
    /// The holder adds one to the counter through its guard.
    Increment,
    /// The holder releases its guard.
    Release,
}

/// A lock guarding a counter, with the number of live guards.
pub struct MutexState {
    pub locked: bool,
    pub guards: nat,
    pub counter: int,
}

/// Whether an event may happen: only a guard holder increments or releases.
pub open spec fn mutex_enabled(s: MutexState, e: MutexEvent) -> bool {
    match e {
        MutexEvent::Attempt => true,
        MutexEvent::Increment => s.guards > 0,
        MutexEvent::Release => s.guards > 0,
    }
}

/// The state after an event.
pub open spec fn mutex_next(s: MutexState, e: MutexEvent) -> MutexState {
    match e {
        MutexEvent::Attempt => {
            let (flag, taken) = lock_attempt(s.locked);
            if taken {
                MutexState {
                    locked: flag,
                    guards: s.guards + 1,
                    ..s
                }
            } else {
                s
            }
        },
        MutexEvent::Increment => MutexState { counter: s.counter + 1, ..s },
        MutexEvent::Release => MutexState { locked: false, guards: (s.guards - 1) as nat, ..s },
    }
}

/// Whether every event of `es` is enabled where it happens, from `s` on.
pub open spec fn mutex_run_ok(s: MutexState, es: Seq<MutexEvent>) -> bool
    decreases es.len(),
{
    es.len() == 0 || (mutex_enabled(s, es[0]) && mutex_run_ok(mutex_next(s, es[0]), es.drop_first()))
}

/// The state after the events of `es`, from `s` on.
pub open spec fn mutex_run(s: MutexState, es: Seq<MutexEvent>) -> MutexState
    decreases es.len(),
{
    if es.len() == 0 {
        s
    } else {
        mutex_run(mutex_next(s, es[0]), es.drop_first())
    }
}

/// The number of increments in `es`.
pub open spec fn increments(es: Seq<MutexEvent>) -> nat
    decreases es.len(),
{
    if es.len() == 0 {
        0
    } else {
        (if es[0] is Increment { 1nat } else { 0nat }) + increments(es.drop_first())
    }
}

/// Mutual exclusion, and no update lost: from an unlocked lock with no
/// guard, after any run of attempts, increments and releases, at most one
/// guard is alive, the flag is set exactly while one is, and the counter has
/// grown by exactly the number of increments made under the guards.
pub proof fn lemma_mutual_exclusion(s: MutexState, es: Seq<MutexEvent>)
    requires
        s.guards <= 1,
        s.locked <==> s.guards == 1,
        mutex_run_ok(s, es),
    ensures
        mutex_run(s, es).guards <= 1,
        mutex_run(s, es).locked <==> mutex_run(s, es).guards == 1,
        mutex_run(s, es).counter == s.counter + increments(es),
    decreases es.len(),
{
    if es.len() > 0 {
        lemma_mutual_exclusion(mutex_next(s, es[0]), es.drop_first());
    }
}

impl<T: Default> Default for SpinMutexEx<T> {
    /// An unlocked lock over the default value.
    fn default() -> (r: Self)
        ensures
            r.wf(),
            !r.held(),
            r.limit() == DEFAULT_SPIN_LIMIT,
    {
        SpinMutexEx::new(T::default())
    }
}

} // verus!
