//! Bounded exponential backoff for spin-retry loops.
use vstd::prelude::*;

verus! {

use vstd::arithmetic::power2::{pow2, lemma_pow2_unfold, lemma_pow2_strictly_increases, lemma2_to64, lemma2_to64_rest};

/// Spin limit used by the lock types unless another one is chosen.
pub const DEFAULT_SPIN_LIMIT: isize = 6;

/// Smallest accepted spin limit: `2^63` hints per snooze.
pub const MIN_SPIN_LIMIT: isize = -64;

/// Largest accepted spin limit: the step stays at most `63`.
pub const MAX_SPIN_LIMIT: isize = 62;

/// What one snooze asks the caller to do.
#[derive(Clone, Copy, Debug, PartialEq, Eq, Structural)]
pub enum SnoozeAction {
    /// Issue this many spin-wait hints.
    Spin(u64),
    /// Yield to the scheduler; where no scheduler exists, issue this many
    /// spin-wait hints instead.
    Yield(u64),
}

/// Exponential backoff state: a step counter and the policy's spin limit.
///
/// - a negative limit `b` always spins `2^(-b-1)` times and never yields;
/// - a zero limit always yields;
/// - a positive limit `b` spins `2^step` times while `step <= b`, advancing
///   the step each time, and yields once the step has passed `b`.
pub struct Backoff {
    step: usize,
    spin_limit: isize,
}

/// The action that one snooze takes for a given step and limit.
pub open spec fn snooze_action(step: nat, limit: int) -> SnoozeAction {
    if limit < 0 {
        SnoozeAction::Spin(pow2((-limit - 1) as nat) as u64)
    } else if step <= limit {
        SnoozeAction::Spin(pow2(step) as u64)
    } else {
        SnoozeAction::Yield(pow2(step) as u64)
    }
}

/// The step after one snooze.
pub open spec fn snooze_step(step: nat, limit: int) -> nat {
    if limit >= 0 && step <= limit {
        step + 1
    } else {
        step
    }
}

/// `2^e` for `e < 64`.
fn pow2_u64(e: u32) -> (r: u64)
    requires
        e < 64,
    ensures
        r as nat == pow2(e as nat),
{
    let mut r: u64 = 1;
    let mut i: u32 = 0;
    proof {
        lemma2_to64();
    }
    while i < e
        invariant
            i <= e,
            e < 64,
            r as nat == pow2(i as nat),
        decreases e - i,
    {
        proof {
            lemma_pow2_unfold((i + 1) as nat);
            lemma2_to64_rest();
            if i + 1 < 63 {
                lemma_pow2_strictly_increases((i + 1) as nat, 63);
            }
        }
        r = r * 2;
        i = i + 1;
    }
    r
}

impl Backoff {
    /// The policy's spin limit.
    pub closed spec fn limit(&self) -> int {
        self.spin_limit as int
    }

    /// The current step.
    pub closed spec fn current_step(&self) -> nat {
        self.step as nat
    }

    pub open spec fn wf(&self) -> bool {
        &&& MIN_SPIN_LIMIT <= self.limit() <= MAX_SPIN_LIMIT
        &&& 1 <= self.current_step()
        &&& self.current_step() <= (if self.limit() > 0 { self.limit() + 1 } else { 1 })
    }

    /// A fresh backoff with the default spin limit, at step `1`.
    pub fn new() -> (r: Backoff)
        ensures
            r.wf(),
            r.limit() == DEFAULT_SPIN_LIMIT,
            r.current_step() == 1,
    {
        Backoff { step: 1, spin_limit: DEFAULT_SPIN_LIMIT }
    }

    /// A fresh backoff with the given spin limit, at step `1`.
    pub fn with_spin_limit(spin_limit: isize) -> (r: Backoff)
        requires
            MIN_SPIN_LIMIT <= spin_limit <= MAX_SPIN_LIMIT,
        ensures
            r.wf(),
            r.limit() == spin_limit,
            r.current_step() == 1,
    {
        Backoff { step: 1, spin_limit }
    }

    pub fn spin_limit(&self) -> (r: isize)
        ensures
            r == self.limit(),
    {
        self.spin_limit
    }

    pub fn step(&self) -> (r: usize)
        ensures
            r == self.current_step(),
    {
        self.step
    }

    /// Decides one delay step and advances the state.
    pub fn snooze(&mut self) -> (r: SnoozeAction)
        requires
            old(self).wf(),
        ensures
            final(self).wf(),
            final(self).limit() == old(self).limit(),
            r == snooze_action(old(self).current_step(), old(self).limit()),
            final(self).current_step() == snooze_step(old(self).current_step(), old(self).limit()),
    {
        if self.spin_limit < 0 {
            let e = (-self.spin_limit - 1) as u32;
            return SnoozeAction::Spin(pow2_u64(e));
        }
        let spins = pow2_u64(self.step as u32);
        if self.step <= self.spin_limit as usize {
            self.step = self.step + 1;
            SnoozeAction::Spin(spins)
        } else {
            SnoozeAction::Yield(spins)
        }
    }
}

} // verus!
