use spin_sync::spin_mutex::SpinMutexEx;

#[test]
fn mutex_lock_update_unlock() {
    let mut m = SpinMutexEx::new(5i64);
    assert!(!m.is_locked());
    let g = m.lock();
    assert!(m.is_locked());
    *m.guarded_mut(&g) += 1;
    assert_eq!(*m.guarded(&g), 6);
    m.unlock(g);
    assert!(!m.is_locked());
    assert_eq!(m.into_inner(), 6);
}

#[test]
fn mutex_excludes_second_guard() {
    let mut m = SpinMutexEx::new(0u8);
    let g = m.try_lock().expect("free lock");
    assert!(m.try_lock().is_none());
    assert!(m.try_lock().is_none());
    m.unlock(g);
    let g2 = m.try_lock();
    assert!(g2.is_some());
    m.unlock(g2.unwrap());
}

#[test]
fn mutex_get_mut_bypasses_lock() {
    let mut m = SpinMutexEx::with_spin_limit(String::from("a"), -2);
    m.get_mut().push('b');
    assert!(!m.is_locked());
    assert_eq!(m.backoff().spin_limit(), -2);
    assert_eq!(m.into_inner(), "ab");
}

#[test]
fn two_workers_increment_counter() {
    let mut m = SpinMutexEx::new(0i64);
    for _ in 0..100_000 {
        for _worker in 0..2 {
            let g = m.lock();
            *m.guarded_mut(&g) += 1;
            m.unlock(g);
        }
    }
    assert_eq!(m.into_inner(), 200_000);
}

#[test]
fn default_mutex_is_unlocked() {
    let m: SpinMutexEx<Vec<u8>> = SpinMutexEx::default();
    assert!(!m.is_locked());
    assert!(m.into_inner().is_empty());
}
