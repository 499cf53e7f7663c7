//! Exponential backoff: each failure doubles the delay, up to a cap.

use vstd::arithmetic::power2::{lemma_pow2_unfold, pow2};
use vstd::prelude::*;

verus! {

/// The smaller of two naturals.
pub open spec fn min_nat(a: nat, b: nat) -> nat {
    if a <= b {
        a
    } else {
        b
    }
}

/// The delay that follows `current` after one more failure.
pub open spec fn doubled_delay(current: nat, cap: nat) -> nat {
    min_nat(2 * current, cap)
}

/// The delay in force after `n` consecutive failures: `min(initial * 2^n, cap)`.
pub open spec fn delay_after(initial: nat, cap: nat, n: nat) -> nat {
    min_nat(initial * pow2(n), cap)
}

/// The delay reached by doubling `initial` `n` times, one failure at a time.
pub open spec fn doubled_n_times(initial: nat, cap: nat, n: nat) -> nat
    decreases n,
{
    if n == 0 {
        initial
    } else {
        doubled_delay(doubled_n_times(initial, cap, (n - 1) as nat), cap)
    }
}

/// A doubling backoff between `initial_ms` and `max_ms`.
#[derive(Clone, Copy, Debug, PartialEq, Eq)]
pub struct BackoffPolicy {
    pub initial_ms: u64,
    pub max_ms: u64,
}

impl BackoffPolicy {
    /// A policy is usable when it starts at or below its cap.
    pub open spec fn wf(self) -> bool {
        self.initial_ms <= self.max_ms
    }

    /// The delay in force after `n` consecutive failures.
    pub open spec fn delay_after(self, n: nat) -> nat {
        delay_after(self.initial_ms as nat, self.max_ms as nat, n)
    }

    pub fn new(initial_ms: u64, max_ms: u64) -> (r: BackoffPolicy)
        requires
            initial_ms <= max_ms,
        ensures
            r.wf(),
            r.initial_ms == initial_ms,
            r.max_ms == max_ms,
    {
        BackoffPolicy { initial_ms, max_ms }
    }

    /// The delay to use after one more failure: twice `current_ms`, at most the cap.
    pub fn next_delay(&self, current_ms: u64) -> (r: u64)
        ensures
            r == doubled_delay(current_ms as nat, self.max_ms as nat),
    {
        if current_ms > self.max_ms / 2 {
            self.max_ms
        } else {
            current_ms * 2
        }
    }
}

/// One doubling moves the closed form from `n` failures to `n + 1`.
pub proof fn lemma_doubling_step(initial: nat, cap: nat, n: nat)
    requires
        initial <= cap,
    ensures
        doubled_delay(delay_after(initial, cap, n), cap) == delay_after(initial, cap, n + 1),
{
    lemma_pow2_unfold(n + 1);
    let p = pow2(n);
    assert(initial * (2 * p) == 2 * (initial * p)) by (nonlinear_arith);
}

/// No failure at all leaves the initial delay in force.
pub proof fn lemma_delay_after_zero(initial: nat, cap: nat)
    requires
        initial <= cap,
    ensures
        delay_after(initial, cap, 0) == initial,
{
    assert(pow2(0) == 1) by {
        vstd::arithmetic::power2::lemma_pow2(0);
        vstd::arithmetic::power::lemma_pow0(2);
    }
}

/// Doubling after each of `n` consecutive failures, starting from `initial`,
/// yields `min(initial * 2^n, cap)`.
pub proof fn law_backoff_closed_form(initial: nat, cap: nat, n: nat)
    requires
        initial <= cap,
    ensures
        doubled_n_times(initial, cap, n) == delay_after(initial, cap, n),
    decreases n,
{
    if n == 0 {
        lemma_delay_after_zero(initial, cap);
    } else {
        law_backoff_closed_form(initial, cap, (n - 1) as nat);
        lemma_doubling_step(initial, cap, (n - 1) as nat);
    }
}

} // verus!
