use spin_sync::spin_seqlock::{next_version, validated, SpinSeqLockEx, LOCKED};

#[test]
fn new_cell_is_at_version_one() {
    let c = SpinSeqLockEx::new(7u32);
    assert_eq!(c.version(), 1);
    assert_eq!(c.load(), 7);
}

#[test]
fn write_guard_advances_version() {
    let mut c = SpinSeqLockEx::new(0u64);
    for k in 1..=5u64 {
        let g = c.write();
        assert_eq!(c.version(), LOCKED);
        assert_eq!(g.next(), k as usize + 1);
        *c.guarded_mut(&g) = k;
        c.release_write(g);
        assert_eq!(c.version(), k as usize + 1);
        assert_eq!(c.load(), k);
    }
}

#[test]
fn read_guard_restores_version_and_excludes_others() {
    let mut c = SpinSeqLockEx::new(3i32);
    let g = c.try_read().expect("free cell");
    assert_eq!(g.prev(), 1);
    assert_eq!(c.version(), LOCKED);
    assert!(c.try_read().is_none());
    assert!(c.try_write().is_none());
    assert_eq!(*c.guarded(&g), 3);
    c.release_read(g);
    assert_eq!(c.version(), 1);
}

#[test]
fn store_swap_replace_take() {
    let mut c = SpinSeqLockEx::new(1u8);
    c.store(2);
    assert_eq!(c.version(), 2);
    let mut other = 9u8;
    c.swap(&mut other);
    assert_eq!(other, 2);
    assert_eq!(c.load(), 9);
    assert_eq!(c.replace(4), 9);
    assert_eq!(c.take(), 4);
    assert_eq!(c.load(), 0);
    assert_eq!(c.version(), 5);
}

#[test]
fn bypass_operations_keep_version() {
    let mut c = SpinSeqLockEx::new(String::from("x"));
    assert_eq!(c.replace_mut(String::from("y")), "x");
    c.get_mut().push('z');
    assert_eq!(c.version(), 1);
    let copy = c.clone2();
    assert_eq!(copy.version(), 1);
    assert_eq!(c.access(|s: &String| s.len()), 2);
    assert_eq!(c.version(), 1);
    assert_eq!(copy.into_inner(), "yz");
    assert_eq!(c.into_inner(), "yz");
}

#[test]
fn optimistic_validation() {
    assert!(validated(4, 4));
    assert!(!validated(4, 5));
    assert!(!validated(LOCKED, LOCKED));
    assert_eq!(next_version(1), 2);
}

#[test]
fn increasing_sequence_numbers_are_observed_in_order() {
    let mut c = SpinSeqLockEx::new(0u32);
    let mut seen = Vec::new();
    for n in 1..=100u32 {
        c.store(n);
        seen.push(c.load());
    }
    for w in seen.windows(2) {
        assert!(w[0] <= w[1]);
    }
    assert!(seen.iter().all(|v| *v <= 100));
    assert_eq!(c.version(), 101);
}

#[test]
fn default_and_from_cells() {
    let d: SpinSeqLockEx<u16> = SpinSeqLockEx::default();
    assert_eq!(d.version(), 1);
    assert_eq!(d.load(), 0);
    let f = SpinSeqLockEx::from(12i8);
    assert_eq!(f.version(), 1);
    assert_eq!(f.load(), 12);
}
