use spin_sync::spin_rwlock::{read_step, SpinRwLockEx, UNLOCKED, WRITE_LOCKED};

#[test]
fn readers_coexist() {
    let mut l = SpinRwLockEx::new(vec![1, 2, 3]);
    let a = l.read();
    let b = l.try_read().expect("second reader");
    assert_eq!(l.readers(), 2);
    assert_eq!(l.guarded(&a).len(), 3);
    assert!(l.try_write().is_none());
    l.release_read(a);
    assert!(l.try_write().is_none());
    l.release_read(b);
    assert_eq!(l.readers(), UNLOCKED);
}

#[test]
fn writer_excludes_readers() {
    let mut l = SpinRwLockEx::new(10u32);
    let w = l.write();
    assert_eq!(l.readers(), WRITE_LOCKED);
    assert!(l.try_read().is_none());
    assert!(l.try_write().is_none());
    *l.guarded_mut(&w) = 11;
    assert_eq!(*l.write_guarded(&w), 11);
    l.release_write(w);
    assert_eq!(l.readers(), UNLOCKED);
    let r = l.try_read().expect("free lock");
    assert_eq!(*l.guarded(&r), 11);
    l.release_read(r);
    assert_eq!(l.into_inner(), 11);
}

#[test]
fn reader_decisions() {
    assert_eq!(read_step(-1), None);
    assert_eq!(read_step(0), Some(1));
    assert_eq!(read_step(41), Some(42));
}

#[test]
fn rwlock_get_mut() {
    let mut l = SpinRwLockEx::with_spin_limit(1u8, 0);
    *l.get_mut() = 9;
    assert_eq!(l.backoff().spin_limit(), 0);
    assert_eq!(l.into_inner(), 9);
}
