//! Sequence lock holding its value inline.
//!
//! The cell is a version counter beside the value. Version `0` means that a
//! guard holds the cell; any other version is a generation number. A read
//! guard puts its version back on release; a write guard advances it by one.
//! An optimistic load reads the version, the value and the version again,
//! and keeps the value only when both versions agree and are not `0`.
use vstd::prelude::*;

verus! {

use crate::backoff::{Backoff, DEFAULT_SPIN_LIMIT, MIN_SPIN_LIMIT, MAX_SPIN_LIMIT};

/// The version that marks the cell as held by a guard.
pub const LOCKED: usize = 0;

/// The version of a new cell.
pub const UNLOCKED_VERSION: usize = 1;

/// Who holds a sequence lock, with the version to publish on release.
pub enum Hold {
    Free,
    /// A read guard; `restore` is the version it puts back.
    Read { restore: nat },
    /// A write guard; `from` is the version it found, it publishes `from + 1`.
    Write { from: nat },
}

/// The abstract state of a sequence lock.
pub struct SeqLockState<T> {
    pub version: nat,
    pub data: T,
    pub hold: Hold,
}

/// The generation a state stands for: its version, or while a guard holds
/// the cell, the version that the guard found.
pub open spec fn generation<T>(s: SeqLockState<T>) -> nat {
    match s.hold {
        Hold::Free => s.version,
        Hold::Read { restore } => restore,
        Hold::Write { from } => from,
    }
}

/// One atomic step of the protocol: a guard taken or released, a change of
/// the value under a write guard, or a step that changes nothing (a failed
/// attempt, an optimistic load).
pub open spec fn seq_step<T>(s: SeqLockState<T>, t: SeqLockState<T>) -> bool {
    ||| t == s
    ||| (s.hold is Free && s.version != 0 && t == SeqLockState {
        version: 0,
        data: s.data,
        hold: Hold::Read { restore: s.version },
    })
    ||| (s.hold is Read && t == SeqLockState {
        version: s.hold->restore,
        data: s.data,
        hold: Hold::Free,
    })
    ||| (s.hold is Free && s.version != 0 && t == SeqLockState {
        version: 0,
        data: s.data,
        hold: Hold::Write { from: s.version },
    })
    ||| (s.hold is Write && t.version == 0 && t.hold == s.hold)
    ||| (s.hold is Write && t == SeqLockState {
        version: s.hold->from + 1,
        data: s.data,
        hold: Hold::Free,
    })
}

/// A sequence of states, each reached from the one before by one step.
pub open spec fn seq_trace<T>(tr: Seq<SeqLockState<T>>) -> bool {
    forall|i: int| 0 <= i < tr.len() - 1 ==> #[trigger] seq_step(tr[i], tr[i + 1])
}

/// The number of write guards released along a trace.
pub open spec fn write_releases<T>(tr: Seq<SeqLockState<T>>) -> nat
    decreases tr.len(),
{
    if tr.len() < 2 {
        0
    } else {
        let n = (tr.len() - 1) as int;
        write_releases(tr.subrange(0, n)) + if tr[n - 1].hold is Write && tr[n].hold is Free {
            1nat
        } else {
            0nat
        }
    }
}

/// Whether an optimistic read that saw `first`, then the value, then `second`
/// may keep the value.
pub open spec fn read_is_valid(first: usize, second: usize) -> bool {
    first != LOCKED && first == second
}

/// Decides whether an optimistic read keeps what it read.
pub fn validated(first: usize, second: usize) -> (r: bool)
    ensures
        r == read_is_valid(first, second),
{
    first != LOCKED && first == second
}

/// The version that a write guard publishes when it took the cell at `prev`.
pub fn next_version(prev: usize) -> (r: usize)
    requires
        prev < usize::MAX,
    ensures
        r == prev + 1,
{
    prev + 1
}

/// A read guard: the cell is held until it is handed back to `release_read`.
pub struct SpinSeqLockReadGuardEx {
    prev: usize,
}

/// A write guard: the cell is held until it is handed back to `release_write`.
pub struct SpinSeqLockWriteGuardEx {
    next: usize,
}

impl SpinSeqLockReadGuardEx {
    /// The version restored on release.
    pub closed spec fn restore(&self) -> nat {
        self.prev as nat
    }

    pub fn prev(&self) -> (r: usize)
        ensures
            r == self.restore(),
    {
        self.prev
    }
}

impl SpinSeqLockWriteGuardEx {
    /// The version published on release.
    pub closed spec fn publish(&self) -> nat {
        self.next as nat
    }

    pub fn next(&self) -> (r: usize)
        ensures
            r == self.publish(),
    {
        self.next
    }
}

/// A sequence lock over a value of type `T`.
pub struct SpinSeqLockEx<T> {
    data: T,
    version: usize,
    hold: Ghost<Hold>,
    spin_limit: isize,
}

impl<T> View for SpinSeqLockEx<T> {
    type V = SeqLockState<T>;

    closed spec fn view(&self) -> SeqLockState<T> {
        SeqLockState { version: self.version as nat, data: self.data, hold: self.hold@ }
    }
}

impl<T> SpinSeqLockEx<T> {
    /// The spin limit of the backoff that retry loops on this cell use.
    pub closed spec fn limit(&self) -> int {
        self.spin_limit as int
    }

    pub open spec fn wf(&self) -> bool {
        &&& MIN_SPIN_LIMIT <= self.limit() <= MAX_SPIN_LIMIT
        &&& (self@.version == 0 <==> !(self@.hold is Free))
        &&& (self@.hold is Read ==> self@.hold->restore != 0 && self@.hold->restore
            <= usize::MAX)
        &&& (self@.hold is Write ==> self@.hold->from != 0 && self@.hold->from < usize::MAX)
    }

    /// Whether no guard holds the cell.
    pub open spec fn is_free(&self) -> bool {
        self@.hold is Free
    }

    /// The cell that `new(val)` makes.
    pub closed spec fn fresh(val: T) -> Self {
        SpinSeqLockEx {
            data: val,
            version: UNLOCKED_VERSION,
            hold: Ghost(Hold::Free),
            spin_limit: DEFAULT_SPIN_LIMIT,
        }
    }

    /// A cell holding `val` at version `1`.
    pub fn new(val: T) -> (r: Self)
        ensures
            r == Self::fresh(val),
            r.wf(),
            r@ == (SeqLockState { version: UNLOCKED_VERSION as nat, data: val, hold: Hold::Free }),
            r.limit() == DEFAULT_SPIN_LIMIT,
    {
        SpinSeqLockEx { data: val, version: UNLOCKED_VERSION, hold: Ghost(Hold::Free), spin_limit: DEFAULT_SPIN_LIMIT }
    }

    /// A cell holding `val` at version `1` whose retry loops use `spin_limit`.
    pub fn with_spin_limit(val: T, spin_limit: isize) -> (r: Self)
        requires
            MIN_SPIN_LIMIT <= spin_limit <= MAX_SPIN_LIMIT,
        ensures
            r.wf(),
            r@ == (SeqLockState { version: UNLOCKED_VERSION as nat, data: val, hold: Hold::Free }),
            r.limit() == spin_limit,
    {
        SpinSeqLockEx { data: val, version: UNLOCKED_VERSION, hold: Ghost(Hold::Free), spin_limit }
    }

    /// A fresh backoff for a retry loop on this cell.
    pub fn backoff(&self) -> (r: Backoff)
        requires
            self.wf(),
        ensures
            r.wf(),
            r.limit() == self.limit(),
            r.current_step() == 1,
    {
        Backoff::with_spin_limit(self.spin_limit)
    }

    /// The current version.
    pub fn version(&self) -> (r: usize)
        ensures
            r == self@.version,
    {
        self.version
    }

    /// The value, given up with the cell.
    pub fn into_inner(self) -> (r: T)
        ensures
            r == self@.data,
    {
        self.data
    }

    /// The value, reached without locking through exclusive access to the cell.
    pub fn get_mut(&mut self) -> (r: &mut T)
        ensures
            *r == old(self)@.data,
            final(self)@ == (SeqLockState { data: *final(r), ..old(self)@ }),
            final(self).limit() == old(self).limit(),
    {
        &mut self.data
    }

    /// Puts `other` in place of the value without locking and returns the old value.
    pub fn replace_mut(&mut self, other: T) -> (r: T)
        ensures
            r == old(self)@.data,
            final(self)@ == (SeqLockState { data: other, ..old(self)@ }),
            final(self).limit() == old(self).limit(),
    {
        let mut r = other;
        std::mem::swap(&mut self.data, &mut r);
        r
    }

    /// One attempt to take a read guard: the version is swapped for `LOCKED`,
    /// and the guard is had when the version found was not `LOCKED`.
    pub fn try_read(&mut self) -> (r: Option<SpinSeqLockReadGuardEx>)
        requires
            old(self).wf(),
        ensures
            final(self).wf(),
            final(self).limit() == old(self).limit(),
            seq_step(old(self)@, final(self)@),
            r is Some <==> old(self).is_free(),
            r is Some ==> r->0.restore() == old(self)@.version && final(self)@ == (SeqLockState {
                version: 0,
                data: old(self)@.data,
                hold: Hold::Read { restore: old(self)@.version },
            }),
            r is None ==> final(self)@ == old(self)@,
    {
        let prev = self.version;
        self.version = LOCKED;
        if prev != LOCKED {
            self.hold = Ghost(Hold::Read { restore: prev as nat });
            Some(SpinSeqLockReadGuardEx { prev })
        } else {
            None
        }
    }

    /// Takes a read guard. On a held cell this would spin until the holder
    /// releases it, so the cell must be free.
    pub fn read(&mut self) -> (r: SpinSeqLockReadGuardEx)
        requires
            old(self).wf(),
            old(self).is_free(),
        ensures
            final(self).wf(),
            final(self).limit() == old(self).limit(),
            seq_step(old(self)@, final(self)@),
            r.restore() == old(self)@.version,
            final(self)@ == (SeqLockState {
                version: 0,
                data: old(self)@.data,
                hold: Hold::Read { restore: old(self)@.version },
            }),
    {
        let prev = self.version;
        self.version = LOCKED;
        self.hold = Ghost(Hold::Read { restore: prev as nat });
        SpinSeqLockReadGuardEx { prev }
    }

    /// Releases a read guard: the version it found comes back.
    pub fn release_read(&mut self, guard: SpinSeqLockReadGuardEx)
        requires
            old(self).wf(),
            old(self)@.hold == (Hold::Read { restore: guard.restore() }),
        ensures
            final(self).wf(),
            final(self).limit() == old(self).limit(),
            seq_step(old(self)@, final(self)@),
            final(self)@ == (SeqLockState {
                version: guard.restore(),
                data: old(self)@.data,
                hold: Hold::Free,
            }),
    {
        self.version = guard.prev;
        self.hold = Ghost(Hold::Free);
    }

    /// One attempt to take a write guard: the version is swapped for `LOCKED`,
    /// and the guard is had when the version found was not `LOCKED`. The
    /// version must leave room for the one the guard will publish.
    pub fn try_write(&mut self) -> (r: Option<SpinSeqLockWriteGuardEx>)
        requires
            old(self).wf(),
            old(self)@.version < usize::MAX,
        ensures
            final(self).wf(),
            final(self).limit() == old(self).limit(),
            seq_step(old(self)@, final(self)@),
            r is Some <==> old(self).is_free(),
            r is Some ==> r->0.publish() == old(self)@.version + 1 && final(self)@ == (SeqLockState {
                version: 0,
                data: old(self)@.data,
                hold: Hold::Write { from: old(self)@.version },
            }),
            r is None ==> final(self)@ == old(self)@,
    {
        let prev = self.version;
        self.version = LOCKED;
        if prev != LOCKED {
            self.hold = Ghost(Hold::Write { from: prev as nat });
            Some(SpinSeqLockWriteGuardEx { next: next_version(prev) })
        } else {
            None
        }
    }

    /// Takes a write guard. On a held cell this would spin until the holder
    /// releases it, so the cell must be free.
    pub fn write(&mut self) -> (r: SpinSeqLockWriteGuardEx)
        requires
            old(self).wf(),
            old(self).is_free(),
            old(self)@.version < usize::MAX,
        ensures
            final(self).wf(),
            final(self).limit() == old(self).limit(),
            seq_step(old(self)@, final(self)@),
            r.publish() == old(self)@.version + 1,
            final(self)@ == (SeqLockState {
                version: 0,
                data: old(self)@.data,
                hold: Hold::Write { from: old(self)@.version },
            }),
    {
        let prev = self.version;
        self.version = LOCKED;
        self.hold = Ghost(Hold::Write { from: prev as nat });
        SpinSeqLockWriteGuardEx { next: next_version(prev) }
    }

    /// Releases a write guard: the version advances past the one it found.
    pub fn release_write(&mut self, guard: SpinSeqLockWriteGuardEx)
        requires
            old(self).wf(),
            old(self)@.hold is Write,
            guard.publish() == old(self)@.hold->from + 1,
        ensures
            final(self).wf(),
            final(self).limit() == old(self).limit(),
            seq_step(old(self)@, final(self)@),
            final(self)@ == (SeqLockState {
                version: guard.publish(),
                data: old(self)@.data,
                hold: Hold::Free,
            }),
    {
        self.version = guard.next;
        self.hold = Ghost(Hold::Free);
    }

    /// The value, seen through a read guard.
    pub fn guarded(&self, guard: &SpinSeqLockReadGuardEx) -> (r: &T)
        requires
            self@.hold == (Hold::Read { restore: guard.restore() }),
        ensures
            *r == self@.data,
    {
        &self.data
    }

    /// The value, changed through a write guard.
    pub fn guarded_mut(&mut self, guard: &SpinSeqLockWriteGuardEx) -> (r: &mut T)
        requires
            old(self).wf(),
            old(self)@.hold is Write,
            guard.publish() == old(self)@.hold->from + 1,
        ensures
            *r == old(self)@.data,
            final(self)@ == (SeqLockState { data: *final(r), ..old(self)@ }),
            final(self).limit() == old(self).limit(),
    {
        &mut self.data
    }

    /// Runs `callback` on the value under a read guard.
    pub fn access<R, F: FnOnce(&T) -> R>(&mut self, callback: F) -> (r: R)
        requires
            old(self).wf(),
            old(self).is_free(),
            call_requires(callback, (&old(self)@.data,)),
        ensures
            final(self)@ == old(self)@,
            final(self).limit() == old(self).limit(),
            call_ensures(callback, (&old(self)@.data,), r),
    {
        let guard = self.read();
        let r = callback(self.guarded(&guard));
        self.release_read(guard);
        r
    }

    /// Takes a write guard, puts `v` in place of the value and releases it.
    pub fn store(&mut self, v: T)
        requires
            old(self).wf(),
            old(self).is_free(),
            old(self)@.version < usize::MAX,
        ensures
            final(self).wf(),
            final(self).limit() == old(self).limit(),
            final(self)@ == (SeqLockState {
                version: old(self)@.version + 1,
                data: v,
                hold: Hold::Free,
            }),
    {
        let guard = self.write();
        let slot = self.guarded_mut(&guard);
        *slot = v;
        self.release_write(guard);
    }

    /// Exchanges the value with `*other` under a write guard.
    pub fn swap(&mut self, other: &mut T)
        requires
            old(self).wf(),
            old(self).is_free(),
            old(self)@.version < usize::MAX,
        ensures
            final(self).wf(),
            final(self).limit() == old(self).limit(),
            *final(other) == old(self)@.data,
            final(self)@ == (SeqLockState {
                version: old(self)@.version + 1,
                data: *old(other),
                hold: Hold::Free,
            }),
    {
        let guard = self.write();
        let slot = self.guarded_mut(&guard);
        std::mem::swap(slot, other);
        self.release_write(guard);
    }

    /// Puts `other` in place of the value under a write guard and returns
    /// the old value.
    pub fn replace(&mut self, other: T) -> (r: T)
        requires
            old(self).wf(),
            old(self).is_free(),
            old(self)@.version < usize::MAX,
        ensures
            final(self).wf(),
            final(self).limit() == old(self).limit(),
            r == old(self)@.data,
            final(self)@ == (SeqLockState {
                version: old(self)@.version + 1,
                data: other,
                hold: Hold::Free,
            }),
    {
        let guard = self.write();
        let slot = self.guarded_mut(&guard);
        let mut r = other;
        std::mem::swap(slot, &mut r);
        self.release_write(guard);
        r
    }
}


impl<T: Copy> SpinSeqLockEx<T> {
    /// Reads the version, the value and the version again, and keeps the
    /// value when the two versions agree and are not `LOCKED`.
    fn optimistic_read(&self) -> (r: Option<T>)
        requires
            self.wf(),
        ensures
            r == (if self@.version != 0 { Some(self@.data) } else { None::<T> }),
    {
        let first = self.version;
        let data = self.data;
        let second = self.version;
        if validated(first, second) {
            Some(data)
        } else {
            None
        }
    }

    /// The value, read optimistically. On a held cell the read would fall
    /// back to a read guard and spin until the holder releases it, so the
    /// cell must be free.
    pub fn load(&self) -> (r: T)
        requires
            self.wf(),
            self.is_free(),
        ensures
            r == self@.data,
    {
        match self.optimistic_read() {
            Some(v) => v,
            None => self.data,
        }
    }
}

impl<T: Default> SpinSeqLockEx<T> {
    /// Puts the default value in place of the value under a write guard and
    /// returns the old value.
    pub fn take(&mut self) -> (r: T)
        requires
            old(self).wf(),
            old(self).is_free(),
            old(self)@.version < usize::MAX,
        ensures
            final(self).wf(),
            final(self).limit() == old(self).limit(),
            r == old(self)@.data,
            final(self)@.version == old(self)@.version + 1,
            final(self)@.hold is Free,
    {
        let guard = self.write();
        let slot = self.guarded_mut(&guard);
        let mut r = T::default();
        std::mem::swap(slot, &mut r);
        self.release_write(guard);
        r
    }
}

impl<T: Clone> SpinSeqLockEx<T> {
    /// A new free cell at version `1` holding a clone of the value, taken
    /// under a read guard.
    pub fn clone2(&mut self) -> (r: Self)
        requires
            old(self).wf(),
            old(self).is_free(),
        ensures
            final(self)@ == old(self)@,
            final(self).limit() == old(self).limit(),
            r.wf(),
            r.limit() == old(self).limit(),
            r@.version == UNLOCKED_VERSION,
            r@.hold is Free,
            cloned(old(self)@.data, r@.data),
    {
        let guard = self.read();
        let data = self.guarded(&guard).clone();
        self.release_read(guard);
        SpinSeqLockEx::with_spin_limit(data, self.spin_limit)
    }
}

/// The shape every reachable state has: version `0` exactly while a guard
/// holds the cell, and a guard remembers a version that was not `0`.
pub open spec fn state_wf<T>(s: SeqLockState<T>) -> bool {
    &&& (s.version == 0 <==> !(s.hold is Free))
    &&& (s.hold is Read ==> s.hold->restore != 0)
    &&& (s.hold is Write ==> s.hold->from != 0)
}

/// One step changes the generation only by releasing a write guard, which
/// raises it by one.
pub proof fn lemma_step_generation<T>(s: SeqLockState<T>, t: SeqLockState<T>)
    requires
        seq_step(s, t),
    ensures
        generation(t) == generation(s) + (if s.hold is Write && t.hold is Free { 1int } else { 0int }),
        state_wf(s) ==> state_wf(t),
        !(s.hold is Write) ==> t.data == s.data,
{
}

proof fn lemma_trace_step<T>(tr: Seq<SeqLockState<T>>, i: int)
    requires
        seq_trace(tr),
        0 <= i < tr.len() - 1,
    ensures
        seq_step(tr[i], tr[i + 1]),
{
}

proof fn lemma_trace_prefix<T>(tr: Seq<SeqLockState<T>>, n: int)
    requires
        seq_trace(tr),
        1 <= n <= tr.len(),
    ensures
        seq_trace(tr.subrange(0, n)),
{
    assert forall|i: int| 0 <= i < n - 1 implies #[trigger] seq_step(
        tr.subrange(0, n)[i],
        tr.subrange(0, n)[i + 1],
    ) by {
        assert(seq_step(tr[i], tr[i + 1]));
    }
}

/// Along any trace the generation rises by exactly the number of write
/// guards released; where the trace starts and ends with a free cell, the
/// version that a reader sees after `K` write releases is the first version
/// plus `K`.
pub proof fn lemma_version_counts_write_releases<T>(tr: Seq<SeqLockState<T>>)
    requires
        seq_trace(tr),
        tr.len() >= 1,
    ensures
        generation(tr.last()) == generation(tr[0]) + write_releases(tr),
        tr[0].hold is Free && tr.last().hold is Free ==> tr.last().version == tr[0].version
            + write_releases(tr),
    decreases tr.len(),
{
    if tr.len() >= 2 {
        let n = (tr.len() - 1) as int;
        lemma_trace_prefix(tr, n);
        lemma_version_counts_write_releases(tr.subrange(0, n));
        lemma_trace_step(tr, n - 1);
        lemma_step_generation(tr[n - 1], tr[n]);
        assert(tr.subrange(0, n).last() == tr[n - 1]);
    }
}

proof fn lemma_generation_rises<T>(tr: Seq<SeqLockState<T>>, a: int, b: int)
    requires
        seq_trace(tr),
        0 <= a <= b < tr.len(),
    ensures
        generation(tr[a]) <= generation(tr[b]),
    decreases b - a,
{
    if a < b {
        lemma_generation_rises(tr, a, b - 1);
        lemma_trace_step(tr, b - 1);
        lemma_step_generation(tr[b - 1], tr[b]);
    }
}

proof fn lemma_states_wf<T>(tr: Seq<SeqLockState<T>>, b: int)
    requires
        seq_trace(tr),
        0 <= b < tr.len(),
        state_wf(tr[0]),
    ensures
        state_wf(tr[b]),
    decreases b,
{
    if b > 0 {
        lemma_states_wf(tr, b - 1);
        lemma_trace_step(tr, b - 1);
        lemma_step_generation(tr[b - 1], tr[b]);
    }
}

proof fn lemma_after_write<T>(tr: Seq<SeqLockState<T>>, j: int, k: int)
    requires
        seq_trace(tr),
        0 <= j <= k < tr.len(),
        tr[j].hold is Write,
    ensures
        generation(tr[k]) >= tr[j].hold->from,
        !(tr[k].hold is Write) ==> generation(tr[k]) >= tr[j].hold->from + 1,
    decreases k - j,
{
    if j < k {
        lemma_after_write(tr, j, k - 1);
        lemma_trace_step(tr, k - 1);
        lemma_step_generation(tr[k - 1], tr[k]);
    }
}

proof fn lemma_no_write_keeps_data<T>(tr: Seq<SeqLockState<T>>, b: int)
    requires
        seq_trace(tr),
        0 <= b < tr.len(),
        forall|j: int| 0 <= j < tr.len() ==> !(#[trigger] tr[j].hold is Write),
    ensures
        tr[b].data == tr[0].data,
    decreases b,
{
    if b > 0 {
        lemma_no_write_keeps_data(tr, b - 1);
        lemma_trace_step(tr, b - 1);
        lemma_step_generation(tr[b - 1], tr[b]);
    }
}

/// An optimistic read is sound: where the version seen first is not
/// `LOCKED` and the version seen last is the same, no write guard was taken
/// in between, so every state between the two reads held one and the same
/// value, the one stored when the first read was made.
pub proof fn lemma_validated_read_is_stored<T>(tr: Seq<SeqLockState<T>>)
    requires
        seq_trace(tr),
        tr.len() >= 1,
        state_wf(tr[0]),
        read_is_valid(tr[0].version as usize, tr.last().version as usize),
        tr[0].version <= usize::MAX,
        tr.last().version <= usize::MAX,
    ensures
        forall|j: int| 0 <= j < tr.len() ==> (#[trigger] tr[j]).data == tr[0].data,
{
    let last = tr.len() - 1;
    lemma_states_wf(tr, last);
    assert forall|j: int| 0 <= j < tr.len() implies !(#[trigger] tr[j].hold is Write) by {
        if tr[j].hold is Write {
            lemma_generation_rises(tr, 0, j);
            lemma_after_write(tr, j, last);
        }
    }
    assert forall|j: int| 0 <= j < tr.len() implies (#[trigger] tr[j]).data == tr[0].data by {
        lemma_no_write_keeps_data(tr, j);
    }
}

impl<T: Default> Default for SpinSeqLockEx<T> {
    /// A free cell at version `1` over the default value.
    fn default() -> (r: Self)
        ensures
            r.wf(),
            r@.version == UNLOCKED_VERSION,
            r@.hold is Free,
            r.limit() == DEFAULT_SPIN_LIMIT,
    {
        SpinSeqLockEx::new(T::default())
    }
}

impl<T: Copy> From<T> for SpinSeqLockEx<T> {
    /// A free cell at version `1` holding `value`.
    fn from(value: T) -> (r: Self) {
        SpinSeqLockEx::new(value)
    }
}

impl<T: Copy> vstd::std_specs::convert::FromSpecImpl<T> for SpinSeqLockEx<T> {
    open spec fn obeys_from_spec() -> bool {
        true
    }

    open spec fn from_spec(v: T) -> Self {
        SpinSeqLockEx::fresh(v)
    }
}

} // verus!
