//! Sequence lock specialised to one address word kept apart from the version.
//!
//! Guards take a snapshot of the word when they take the cell. A write guard
//! may change its snapshot; on release it stores the word first and the new
//! version after it, so that a reader who sees the new version also sees the
//! new word.
use vstd::prelude::*;

verus! {

use crate::backoff::{Backoff, DEFAULT_SPIN_LIMIT, MIN_SPIN_LIMIT, MAX_SPIN_LIMIT};
use crate::spin_seqlock::{
    Hold, SeqLockState, LOCKED, UNLOCKED_VERSION, read_is_valid, seq_step, seq_trace, validated,
    next_version,
};

/// Number of optimistic attempts that `load` makes before it falls back to
/// a read guard.
pub const OPTIMISTIC_ATTEMPTS: usize = 6;

/// The abstract state of the cell.
pub struct PtrSeqState {
    pub version: nat,
    pub ptr: usize,
    pub hold: Hold,
}

/// The cell seen as a sequence lock whose value is the word: storing the
/// word while a write guard holds the cell is a change of the value under
/// that guard.
pub open spec fn as_seq_state(s: PtrSeqState) -> SeqLockState<usize> {
    SeqLockState { version: s.version, data: s.ptr, hold: s.hold }
}

/// A read guard with the word it saw; the cell is held until the guard is
/// handed back to `release_read`.
pub struct SpinSeqLockAtomicPtrReadGuardEx {
    ptr_snapshot: usize,
    prev: usize,
}

/// A write guard with the word it will store; the cell is held until the
/// guard is handed back to `release_write`.
pub struct SpinSeqLockAtomicPtrWriteGuardEx {
    ptr_snapshot: usize,
    next: usize,
}

impl SpinSeqLockAtomicPtrReadGuardEx {
    pub closed spec fn snapshot(&self) -> usize {
        self.ptr_snapshot
    }

    pub closed spec fn restore(&self) -> nat {
        self.prev as nat
    }

    /// The word seen when the guard was taken.
    pub fn ptr(&self) -> (r: usize)
        ensures
            r == self.snapshot(),
    {
        self.ptr_snapshot
    }
}

impl SpinSeqLockAtomicPtrWriteGuardEx {
    pub closed spec fn snapshot(&self) -> usize {
        self.ptr_snapshot
    }

    pub closed spec fn publish(&self) -> nat {
        self.next as nat
    }

    /// The word that release will store.
    pub fn ptr(&self) -> (r: usize)
        ensures
            r == self.snapshot(),
    {
        self.ptr_snapshot
    }

    /// The word that release will store, to be changed in place.
    pub fn ptr_mut(&mut self) -> (r: &mut usize)
        ensures
            *r == old(self).snapshot(),
            final(self).snapshot() == *final(r),
            final(self).publish() == old(self).publish(),
    {
        &mut self.ptr_snapshot
    }
}

/// The two states that releasing a write guard goes through: the word is
/// stored while the version still reads `LOCKED`, then the version advances.
pub open spec fn write_back_states(s: PtrSeqState, word: usize, next: nat) -> Seq<PtrSeqState> {
    seq![
        PtrSeqState { version: s.version, ptr: word, hold: s.hold },
        PtrSeqState { version: next, ptr: word, hold: Hold::Free },
    ]
}

/// A sequence lock over one address word.
pub struct SpinSeqLockAtomicPtrEx {
    ptr: usize,
    version: usize,
    hold: Ghost<Hold>,
    spin_limit: isize,
}

impl View for SpinSeqLockAtomicPtrEx {
    type V = PtrSeqState;

    closed spec fn view(&self) -> PtrSeqState {
        PtrSeqState { version: self.version as nat, ptr: self.ptr, hold: self.hold@ }
    }
}

impl SpinSeqLockAtomicPtrEx {
    /// The spin limit of the backoff that retry loops on this cell use.
    pub closed spec fn limit(&self) -> int {
        self.spin_limit as int
    }

    pub open spec fn wf(&self) -> bool {
        &&& MIN_SPIN_LIMIT <= self.limit() <= MAX_SPIN_LIMIT
        &&& (self@.version == 0 <==> !(self@.hold is Free))
        &&& (self@.hold is Read ==> self@.hold->restore != 0 && self@.hold->restore
            <= usize::MAX)
        &&& (self@.hold is Write ==> self@.hold->from != 0 && self@.hold->from < usize::MAX)
    }

    pub open spec fn is_free(&self) -> bool {
        self@.hold is Free
    }

    /// A cell holding `val` at version `1`.
    pub fn new(val: usize) -> (r: Self)
        ensures
            r.wf(),
            r@ == (PtrSeqState { version: UNLOCKED_VERSION as nat, ptr: val, hold: Hold::Free }),
            r.limit() == DEFAULT_SPIN_LIMIT,
    {
        SpinSeqLockAtomicPtrEx {
            ptr: val,
            version: UNLOCKED_VERSION,
            hold: Ghost(Hold::Free),
            spin_limit: DEFAULT_SPIN_LIMIT,
        }
    }

    /// A cell holding `val` at version `1` whose retry loops use `spin_limit`.
    pub fn with_spin_limit(val: usize, spin_limit: isize) -> (r: Self)
        requires
            MIN_SPIN_LIMIT <= spin_limit <= MAX_SPIN_LIMIT,
        ensures
            r.wf(),
            r@ == (PtrSeqState { version: UNLOCKED_VERSION as nat, ptr: val, hold: Hold::Free }),
            r.limit() == spin_limit,
    {
        SpinSeqLockAtomicPtrEx { ptr: val, version: UNLOCKED_VERSION, hold: Ghost(Hold::Free), spin_limit }
    }

    /// A fresh backoff for a retry loop on this cell.
    pub fn backoff(&self) -> (r: Backoff)
        requires
            self.wf(),
        ensures
            r.wf(),
            r.limit() == self.limit(),
            r.current_step() == 1,
    {
        Backoff::with_spin_limit(self.spin_limit)
    }

    /// The current version.
    pub fn version(&self) -> (r: usize)
        ensures
            r == self@.version,
    {
        self.version
    }

    /// The word, given up with the cell.
    pub fn into_inner(self) -> (r: usize)
        ensures
            r == self@.ptr,
    {
        self.ptr
    }

    /// The word, reached without locking through exclusive access to the cell.
    pub fn get_mut(&mut self) -> (r: &mut usize)
        ensures
            *r == old(self)@.ptr,
            final(self)@ == (PtrSeqState { ptr: *final(r), ..old(self)@ }),
            final(self).limit() == old(self).limit(),
    {
        &mut self.ptr
    }

    /// Puts `other` in place of the word without locking and returns the old word.
    pub fn replace_mut(&mut self, other: usize) -> (r: usize)
        ensures
            r == old(self)@.ptr,
            final(self)@ == (PtrSeqState { ptr: other, ..old(self)@ }),
            final(self).limit() == old(self).limit(),
    {
        let slot = self.get_mut();
        let r = *slot;
        *slot = other;
        r
    }

    /// One attempt to take a read guard: the version is swapped for `LOCKED`,
    /// and the guard, with a snapshot of the word, is had when the version
    /// found was not `LOCKED`.
    pub fn try_read(&mut self) -> (r: Option<SpinSeqLockAtomicPtrReadGuardEx>)
        requires
            old(self).wf(),
        ensures
            seq_step(as_seq_state(old(self)@), as_seq_state(final(self)@)),
            final(self).wf(),
            final(self).limit() == old(self).limit(),
            r is Some <==> old(self).is_free(),
            r is Some ==> {
                &&& r->0.restore() == old(self)@.version
                &&& r->0.snapshot() == old(self)@.ptr
                &&& final(self)@ == (PtrSeqState {
                    version: 0,
                    ptr: old(self)@.ptr,
                    hold: Hold::Read { restore: old(self)@.version },
                })
            },
            r is None ==> final(self)@ == old(self)@,
    {
        let prev = self.version;
        self.version = LOCKED;
        if prev != LOCKED {
            self.hold = Ghost(Hold::Read { restore: prev as nat });
            Some(SpinSeqLockAtomicPtrReadGuardEx { ptr_snapshot: self.ptr, prev })
        } else {
            None
        }
    }

    /// Takes a read guard. On a held cell this would spin until the holder
    /// releases it, so the cell must be free.
    pub fn read(&mut self) -> (r: SpinSeqLockAtomicPtrReadGuardEx)
        requires
            old(self).wf(),
            old(self).is_free(),
        ensures
            seq_step(as_seq_state(old(self)@), as_seq_state(final(self)@)),
            final(self).wf(),
            final(self).limit() == old(self).limit(),
            r.restore() == old(self)@.version,
            r.snapshot() == old(self)@.ptr,
            final(self)@ == (PtrSeqState {
                version: 0,
                ptr: old(self)@.ptr,
                hold: Hold::Read { restore: old(self)@.version },
            }),
    {
        match self.try_read() {
            Some(g) => g,
            None => {
                proof {
                    assert(false);
                }
                SpinSeqLockAtomicPtrReadGuardEx { ptr_snapshot: self.ptr, prev: UNLOCKED_VERSION }
            },
        }
    }

    /// Releases a read guard: the version it found comes back, the word is
    /// left as it is.
    pub fn release_read(&mut self, guard: SpinSeqLockAtomicPtrReadGuardEx)
        requires
            old(self).wf(),
            old(self)@.hold == (Hold::Read { restore: guard.restore() }),
        ensures
            seq_step(as_seq_state(old(self)@), as_seq_state(final(self)@)),
            final(self).wf(),
            final(self).limit() == old(self).limit(),
            final(self)@ == (PtrSeqState {
                version: guard.restore(),
                ptr: old(self)@.ptr,
                hold: Hold::Free,
            }),
    {
        self.version = guard.prev;
        self.hold = Ghost(Hold::Free);
    }

    /// One attempt to take a write guard: the version is swapped for
    /// `LOCKED`, and the guard, with a snapshot of the word, is had when the
    /// version found was not `LOCKED`.
    pub fn try_write(&mut self) -> (r: Option<SpinSeqLockAtomicPtrWriteGuardEx>)
        requires
            old(self).wf(),
            old(self)@.version < usize::MAX,
        ensures
            seq_step(as_seq_state(old(self)@), as_seq_state(final(self)@)),
            final(self).wf(),
            final(self).limit() == old(self).limit(),
            r is Some <==> old(self).is_free(),
            r is Some ==> {
                &&& r->0.publish() == old(self)@.version + 1
                &&& r->0.snapshot() == old(self)@.ptr
                &&& final(self)@ == (PtrSeqState {
                    version: 0,
                    ptr: old(self)@.ptr,
                    hold: Hold::Write { from: old(self)@.version },
                })
            },
            r is None ==> final(self)@ == old(self)@,
    {
        let prev = self.version;
        self.version = LOCKED;
        if prev != LOCKED {
            self.hold = Ghost(Hold::Write { from: prev as nat });
            Some(SpinSeqLockAtomicPtrWriteGuardEx { ptr_snapshot: self.ptr, next: next_version(prev) })
        } else {
            None
        }
    }

    /// Takes a write guard. On a held cell this would spin until the holder
    /// releases it, so the cell must be free.
    pub fn write(&mut self) -> (r: SpinSeqLockAtomicPtrWriteGuardEx)
        requires
            old(self).wf(),
            old(self).is_free(),
            old(self)@.version < usize::MAX,
        ensures
            seq_step(as_seq_state(old(self)@), as_seq_state(final(self)@)),
            final(self).wf(),
            final(self).limit() == old(self).limit(),
            r.publish() == old(self)@.version + 1,
            r.snapshot() == old(self)@.ptr,
            final(self)@ == (PtrSeqState {
                version: 0,
                ptr: old(self)@.ptr,
                hold: Hold::Write { from: old(self)@.version },
            }),
    {
        match self.try_write() {
            Some(g) => g,
            None => {
                proof {
                    assert(false);
                }
                SpinSeqLockAtomicPtrWriteGuardEx { ptr_snapshot: self.ptr, next: UNLOCKED_VERSION }
            },
        }
    }

    /// Releases a write guard: the guard's word is stored first, then the
    /// version advances past the one the guard found.
    pub fn release_write(&mut self, guard: SpinSeqLockAtomicPtrWriteGuardEx)
        requires
            old(self).wf(),
            old(self)@.hold is Write,
            guard.publish() == old(self)@.hold->from + 1,
        ensures
            seq_trace(
                seq![as_seq_state(old(self)@)].add(
                    write_back_states(old(self)@, guard.snapshot(), guard.publish()).map_values(
                        |x: PtrSeqState| as_seq_state(x),
                    ),
                ),
            ),
            final(self).wf(),
            final(self).limit() == old(self).limit(),
            final(self)@ == write_back_states(old(self)@, guard.snapshot(), guard.publish()).last(),
            final(self)@ == (PtrSeqState {
                version: guard.publish(),
                ptr: guard.snapshot(),
                hold: Hold::Free,
            }),
    {
        proof {
            lemma_write_back_before_version(old(self)@, guard.snapshot(), guard.publish());
        }
        self.ptr = guard.ptr_snapshot;
        self.version = guard.next;
        self.hold = Ghost(Hold::Free);
    }

    /// Up to `OPTIMISTIC_ATTEMPTS` times, reads the version, the word and the
    /// version again, and keeps the word when the two versions agree and are
    /// not `LOCKED`.
    fn optimistic_read(&self) -> (r: Option<usize>)
        requires
            self.wf(),
        ensures
            r == (if self@.version != 0 { Some(self@.ptr) } else { None::<usize> }),
    {
        let mut i: usize = 0;
        while i < OPTIMISTIC_ATTEMPTS
            invariant
                i <= OPTIMISTIC_ATTEMPTS,
                i > 0 ==> self@.version == 0,
            decreases OPTIMISTIC_ATTEMPTS - i,
        {
            let first = self.version;
            let data = self.ptr;
            let second = self.version;
            if validated(first, second) {
                return Some(data);
            }
            i = i + 1;
        }
        None
    }

    /// The word, read optimistically. On a held cell the read would fall
    /// back to a read guard and spin until the holder releases it, so the
    /// cell must be free.
    pub fn load(&self) -> (r: usize)
        requires
            self.wf(),
            self.is_free(),
        ensures
            r == self@.ptr,
    {
        match self.optimistic_read() {
            Some(p) => p,
            None => self.ptr,
        }
    }

    /// Stores `v` under a write guard.
    pub fn store(&mut self, v: usize)
        requires
            old(self).wf(),
            old(self).is_free(),
            old(self)@.version < usize::MAX,
        ensures
            final(self).wf(),
            final(self).limit() == old(self).limit(),
            final(self)@ == (PtrSeqState { version: old(self)@.version + 1, ptr: v, hold: Hold::Free }),
    {
        let mut guard = self.write();
        *guard.ptr_mut() = v;
        self.release_write(guard);
    }

    /// Exchanges the word with `*other` under a write guard.
    pub fn swap(&mut self, other: &mut usize)
        requires
            old(self).wf(),
            old(self).is_free(),
            old(self)@.version < usize::MAX,
        ensures
            final(self).wf(),
            final(self).limit() == old(self).limit(),
            *final(other) == old(self)@.ptr,
            final(self)@ == (PtrSeqState {
                version: old(self)@.version + 1,
                ptr: *old(other),
                hold: Hold::Free,
            }),
    {
        let mut guard = self.write();
        std::mem::swap(guard.ptr_mut(), other);
        self.release_write(guard);
    }

    /// Stores `other` under a write guard and returns the old word.
    pub fn replace(&mut self, other: usize) -> (r: usize)
        requires
            old(self).wf(),
            old(self).is_free(),
            old(self)@.version < usize::MAX,
        ensures
            final(self).wf(),
            final(self).limit() == old(self).limit(),
            r == old(self)@.ptr,
            final(self)@ == (PtrSeqState { version: old(self)@.version + 1, ptr: other, hold: Hold::Free }),
    {
        let mut guard = self.write();
        let r = guard.ptr();
        *guard.ptr_mut() = other;
        self.release_write(guard);
        r
    }
}

/// The word is written back before the version advances: releasing a
/// write guard stores the word while the version still reads `LOCKED`, a
/// change of the value under the guard, and then publishes the advanced
/// version with that word, a write release. Seen as a sequence lock, the
/// release is a trace of protocol steps, so the soundness of optimistic
/// reads holds of this cell too, and no state of the release shows a version
/// that a reader accepts beside any word but the guard's.
pub proof fn lemma_write_back_before_version(s: PtrSeqState, word: usize, next: nat)
    requires
        s.hold is Write,
        s.version == 0,
        next == s.hold->from + 1,
    ensures
        seq_trace(
            seq![as_seq_state(s)].add(
                write_back_states(s, word, next).map_values(|x: PtrSeqState| as_seq_state(x)),
            ),
        ),
        write_back_states(s, word, next)[0].version == LOCKED,
        forall|i: int|
            0 <= i < 2 ==> {
                let x = #[trigger] write_back_states(s, word, next)[i];
                x.version <= usize::MAX && read_is_valid(x.version as usize, x.version as usize)
                    ==> x.ptr == word && x.version == next
            },
        write_back_states(s, word, next).last() == (PtrSeqState {
            version: next,
            ptr: word,
            hold: Hold::Free,
        }),
{
    let tr = seq![as_seq_state(s)].add(
        write_back_states(s, word, next).map_values(|x: PtrSeqState| as_seq_state(x)),
    );
    assert(tr.len() == 3);
    assert(seq_step(tr[0], tr[1]));
    assert(seq_step(tr[1], tr[2]));
    assert forall|i: int| 0 <= i < tr.len() - 1 implies #[trigger] seq_step(tr[i], tr[i + 1]) by {
        if i == 0 {
        } else {
            assert(i == 1);
        }
    }
}

impl Default for SpinSeqLockAtomicPtrEx {
    /// A free cell at version `1` over the null address.
    fn default() -> (r: Self)
        ensures
            r.wf(),
            r@ == (PtrSeqState { version: UNLOCKED_VERSION as nat, ptr: 0, hold: Hold::Free }),
            r.limit() == DEFAULT_SPIN_LIMIT,
    {
        SpinSeqLockAtomicPtrEx::new(0)
    }
}

} // verus!
