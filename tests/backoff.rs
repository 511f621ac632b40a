use spin_sync::backoff::{Backoff, SnoozeAction, DEFAULT_SPIN_LIMIT};

#[test]
fn new_backoff_starts_at_step_one() {
    let b = Backoff::new();
    assert_eq!(b.step(), 1);
    assert_eq!(b.spin_limit(), DEFAULT_SPIN_LIMIT);
}

#[test]
fn positive_limit_spins_then_yields() {
    let mut b = Backoff::with_spin_limit(3);
    assert_eq!(b.snooze(), SnoozeAction::Spin(2));
    assert_eq!(b.snooze(), SnoozeAction::Spin(4));
    assert_eq!(b.snooze(), SnoozeAction::Spin(8));
    assert_eq!(b.step(), 4);
    assert_eq!(b.snooze(), SnoozeAction::Yield(16));
    assert_eq!(b.snooze(), SnoozeAction::Yield(16));
    assert_eq!(b.step(), 4);
}

#[test]
fn zero_limit_always_yields() {
    let mut b = Backoff::with_spin_limit(0);
    assert_eq!(b.snooze(), SnoozeAction::Yield(2));
    assert_eq!(b.snooze(), SnoozeAction::Yield(2));
    assert_eq!(b.step(), 1);
}

#[test]
fn negative_limit_spins_a_fixed_count() {
    let mut b = Backoff::with_spin_limit(-4);
    for _ in 0..10 {
        assert_eq!(b.snooze(), SnoozeAction::Spin(8));
    }
    let mut c = Backoff::with_spin_limit(-1);
    assert_eq!(c.snooze(), SnoozeAction::Spin(1));
}

#[test]
fn default_limit_escalates_to_yield() {
    let mut b = Backoff::new();
    let mut spins = Vec::new();
    for _ in 0..8 {
        spins.push(b.snooze());
    }
    assert_eq!(spins[0], SnoozeAction::Spin(2));
    assert_eq!(spins[5], SnoozeAction::Spin(64));
    assert_eq!(spins[6], SnoozeAction::Yield(128));
    assert_eq!(spins[7], SnoozeAction::Yield(128));
}

#[test]
fn extreme_limits() {
    let mut b = Backoff::with_spin_limit(-64);
    assert_eq!(b.snooze(), SnoozeAction::Spin(1u64 << 63));
    let mut c = Backoff::with_spin_limit(62);
    for i in 1..=62u32 {
        assert_eq!(c.snooze(), SnoozeAction::Spin(1u64 << i));
    }
    assert_eq!(c.snooze(), SnoozeAction::Yield(1u64 << 63));
}
