use spin_sync::atomic_spin_seqlock::SpinSeqLockAtomicPtrEx;
use spin_sync::spin_seqlock::LOCKED;

#[test]
fn pointer_cell_basics() {
    let mut c = SpinSeqLockAtomicPtrEx::new(0x1000);
    assert_eq!(c.load(), 0x1000);
    assert_eq!(c.version(), 1);
    c.store(0x2000);
    assert_eq!(c.load(), 0x2000);
    assert_eq!(c.version(), 2);
    let mut other = 0x3000usize;
    c.swap(&mut other);
    assert_eq!(other, 0x2000);
    assert_eq!(c.replace(0x4000), 0x3000);
    assert_eq!(c.version(), 4);
    assert_eq!(c.replace_mut(0x5000), 0x4000);
    *c.get_mut() += 8;
    assert_eq!(c.version(), 4);
    assert_eq!(c.into_inner(), 0x5008);
}

#[test]
fn pointer_written_back_with_new_version() {
    let mut c = SpinSeqLockAtomicPtrEx::new(16);
    let mut g = c.try_write().expect("free cell");
    assert_eq!(g.ptr(), 16);
    assert!(c.try_read().is_none());
    assert!(c.try_write().is_none());
    *g.ptr_mut() = 32;
    assert_eq!(c.version(), LOCKED);
    c.release_write(g);
    assert_eq!(c.version(), 2);
    assert_eq!(c.load(), 32);
}

#[test]
fn pointer_read_guard_snapshot() {
    let mut c = SpinSeqLockAtomicPtrEx::with_spin_limit(64, -3);
    let g = c.read();
    assert_eq!(g.ptr(), 64);
    assert_eq!(c.version(), LOCKED);
    c.release_read(g);
    assert_eq!(c.version(), 1);
    assert_eq!(c.backoff().spin_limit(), -3);
    let w = c.write();
    c.release_write(w);
    assert_eq!(c.load(), 64);
    assert_eq!(c.version(), 2);
}

#[test]
fn default_pointer_cell_is_null() {
    let c = SpinSeqLockAtomicPtrEx::default();
    assert_eq!(c.load(), 0);
    assert_eq!(c.version(), 1);
}
