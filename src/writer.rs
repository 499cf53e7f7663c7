//! The decisions of the retrying sink write: which failures are worth another
//! try, how long to wait, when to rebuild the sink client, when to give up.
//! The caller makes each attempt and reports how it ended.

use crate::backoff::{BackoffPolicy, delay_after, doubled_delay, lemma_delay_after_zero, lemma_doubling_step};
use crate::text::{contains_text, has_substring};
use vstd::prelude::*;

verus! {

/// Retries after the first attempt, at most.
pub const MAX_WRITE_RETRIES: u32 = 5;

/// The delay before the first retry.
pub const WRITE_INITIAL_DELAY_MS: u64 = 500;

/// The longest delay between retries.
pub const WRITE_MAX_DELAY_MS: u64 = 30000;

/// An error message that reports a failed or broken connection.
pub open spec fn is_connection_message(m: Seq<char>) -> bool {
    ||| has_substring(m, "Connection refused"@)
    ||| has_substring(m, "Connection error"@)
    ||| has_substring(m, "Network unreachable"@)
    ||| has_substring(m, "timeout"@)
    ||| has_substring(m, "Connection reset"@)
    ||| has_substring(m, "Broken pipe"@)
}

/// Whether a failed write's message reports a connection problem, the only
/// kind of failure that is retried.
pub fn is_connection_error(message: &str) -> (r: bool)
    ensures
        r == is_connection_message(message@),
{
    contains_text(message, "Connection refused") || contains_text(message, "Connection error")
        || contains_text(message, "Network unreachable") || contains_text(message, "timeout")
        || contains_text(message, "Connection reset") || contains_text(message, "Broken pipe")
}

/// How one write attempt ended.
#[derive(Clone, Copy, Debug, PartialEq, Eq, Structural)]
pub enum WriteOutcome {
    Written,
    /// The write failed; `connection` tells whether it was a connection problem.
    Failed { connection: bool },
}

/// What the caller does after an attempt.
#[derive(Clone, Copy, Debug, PartialEq, Eq, Structural)]
pub enum WriteStep {
    /// The point is stored.
    Done,
    /// Report the failure of the last attempt.
    GiveUp,
    /// Rebuild the sink client if asked, sleep for `delay_ms`, and try again.
    Retry { rebuild_client: bool, delay_ms: u64 },
}

/// The state of one write call: retries made, the delay before the next one,
/// and whether the call is over.
#[derive(Clone, Copy, Debug, PartialEq, Eq, Structural)]
pub struct WriteState {
    pub retries: u32,
    pub delay_ms: u64,
    pub finished: bool,
}

/// The retry delay in force after `n` retries.
pub open spec fn write_delay(n: nat) -> nat {
    delay_after(WRITE_INITIAL_DELAY_MS as nat, WRITE_MAX_DELAY_MS as nat, n)
}

impl WriteState {
    pub open spec fn wf(self) -> bool {
        &&& self.retries <= MAX_WRITE_RETRIES
        &&& self.delay_ms == write_delay(self.retries as nat)
    }

    pub open spec fn initial() -> WriteState {
        WriteState { retries: 0, delay_ms: WRITE_INITIAL_DELAY_MS, finished: false }
    }
}

/// One decision. A finished call retries no more. Success ends the call. A
/// failure ends it too unless it is a connection problem and fewer than the
/// maximum retries were made; then the caller sleeps for the current delay,
/// which doubles up to its cap, and rebuilds the client before the first retry
/// only.
pub open spec fn write_step(s: WriteState, o: WriteOutcome) -> (WriteState, WriteStep) {
    if s.finished {
        (s, WriteStep::GiveUp)
    } else {
        match o {
            WriteOutcome::Written => (WriteState { finished: true, ..s }, WriteStep::Done),
            WriteOutcome::Failed { connection } => {
                if !connection || s.retries >= MAX_WRITE_RETRIES {
                    (WriteState { finished: true, ..s }, WriteStep::GiveUp)
                } else {
                    let retries = (s.retries + 1) as u32;
                    (
                        WriteState {
                            retries,
                            delay_ms: doubled_delay(
                                s.delay_ms as nat,
                                WRITE_MAX_DELAY_MS as nat,
                            ) as u64,
                            finished: false,
                        },
                        WriteStep::Retry { rebuild_client: retries == 1, delay_ms: s.delay_ms },
                    )
                }
            },
        }
    }
}

/// The state reached, and the steps taken, after feeding `outcomes` in order.
pub open spec fn run_write(s: WriteState, outcomes: Seq<WriteOutcome>) -> (WriteState, Seq<WriteStep>)
    decreases outcomes.len(),
{
    if outcomes.len() == 0 {
        (s, Seq::empty())
    } else {
        let (t, steps) = run_write(s, outcomes.drop_last());
        let (u, step) = write_step(t, outcomes.last());
        (u, steps.push(step))
    }
}

/// How many of `steps` are retries.
pub open spec fn retry_count(steps: Seq<WriteStep>) -> nat
    decreases steps.len(),
{
    if steps.len() == 0 {
        0
    } else {
        retry_count(steps.drop_last()) + if steps.last() is Retry {
            1nat
        } else {
            0nat
        }
    }
}

/// How many of `steps` rebuild the sink client.
pub open spec fn rebuild_count(steps: Seq<WriteStep>) -> nat
    decreases steps.len(),
{
    if steps.len() == 0 {
        0
    } else {
        rebuild_count(steps.drop_last()) + if steps.last() matches WriteStep::Retry {
            rebuild_client: true,
            ..
        } {
            1nat
        } else {
            0nat
        }
    }
}

proof fn lemma_run_write(outcomes: Seq<WriteOutcome>)
    ensures
        ({
            let (t, steps) = run_write(WriteState::initial(), outcomes);
            &&& t.wf()
            &&& steps.len() == outcomes.len()
            &&& retry_count(steps) == t.retries
            &&& rebuild_count(steps) == if t.retries >= 1 {
                1nat
            } else {
                0nat
            }
            &&& forall|k: int|
                0 <= k < steps.len() ==> (#[trigger] steps[k] matches WriteStep::Retry {
                    rebuild_client: true,
                    ..
                } ==> retry_count(steps.take(k)) == 0)
        }),
    decreases outcomes.len(),
{
    if outcomes.len() == 0 {
        lemma_delay_after_zero(WRITE_INITIAL_DELAY_MS as nat, WRITE_MAX_DELAY_MS as nat);
    } else {
        let prev = outcomes.drop_last();
        lemma_run_write(prev);
        let (t, steps) = run_write(WriteState::initial(), prev);
        lemma_doubling_step(WRITE_INITIAL_DELAY_MS as nat, WRITE_MAX_DELAY_MS as nat, t.retries as nat);
        let (u, all) = run_write(WriteState::initial(), outcomes);
        assert(all.drop_last() =~= steps);
        assert forall|k: int|
            0 <= k < all.len() implies (#[trigger] all[k] matches WriteStep::Retry {
                rebuild_client: true,
                ..
            } ==> retry_count(all.take(k)) == 0) by {
            if k < steps.len() {
                assert(all.take(k) =~= steps.take(k));
            } else {
                assert(all.take(k) =~= steps);
            }
        }
    }
}

proof fn lemma_run_finished(s: WriteState, outcomes: Seq<WriteOutcome>)
    requires
        s.finished,
    ensures
        run_write(s, outcomes).0 == s,
        run_write(s, outcomes).1.len() == outcomes.len(),
        retry_count(run_write(s, outcomes).1) == 0,
    decreases outcomes.len(),
{
    if outcomes.len() > 0 {
        lemma_run_finished(s, outcomes.drop_last());
        assert(run_write(s, outcomes).1.drop_last() =~= run_write(s, outcomes.drop_last()).1);
    }
}

/// Bounded retries: whatever the attempts of one write call report, the call
/// retries at most five times, rebuilds the sink client at most once, does so
/// whenever it retries at all, and only on its first retry.
pub proof fn law_write_retries_bounded(outcomes: Seq<WriteOutcome>)
    ensures
        retry_count(run_write(WriteState::initial(), outcomes).1) <= MAX_WRITE_RETRIES,
        rebuild_count(run_write(WriteState::initial(), outcomes).1) <= 1,
        retry_count(run_write(WriteState::initial(), outcomes).1) >= 1 ==> rebuild_count(
            run_write(WriteState::initial(), outcomes).1,
        ) == 1,
        forall|k: int|
            0 <= k < outcomes.len() ==> (#[trigger] run_write(
                WriteState::initial(),
                outcomes,
            ).1[k] matches WriteStep::Retry { rebuild_client: true, .. } ==> retry_count(
                run_write(WriteState::initial(), outcomes).1.take(k),
            ) == 0),
{
    lemma_run_write(outcomes);
}

/// A call whose attempts keep failing with connection problems retries five
/// times, sleeping `min(500 * 2^k, 30000)` ms before retry `k` (from zero) and
/// rebuilding the client before the first only, then gives up on the sixth
/// failure.
pub proof fn law_write_gives_up_after_retries()
    ensures
        ({
            let fails = Seq::new(
                (MAX_WRITE_RETRIES + 1) as nat,
                |i: int| WriteOutcome::Failed { connection: true },
            );
            let steps = run_write(WriteState::initial(), fails).1;
            &&& steps.len() == MAX_WRITE_RETRIES + 1
            &&& forall|k: int|
                0 <= k < MAX_WRITE_RETRIES ==> #[trigger] steps[k] == (WriteStep::Retry {
                    rebuild_client: k == 0,
                    delay_ms: write_delay(k as nat) as u64,
                })
            &&& steps[MAX_WRITE_RETRIES as int] == WriteStep::GiveUp
        }),
{
    lemma_failing_call((MAX_WRITE_RETRIES + 1) as nat);
}

proof fn lemma_failing_call(n: nat)
    requires
        n <= MAX_WRITE_RETRIES + 1,
    ensures
        ({
            let fails = Seq::new(n, |i: int| WriteOutcome::Failed { connection: true });
            let (t, steps) = run_write(WriteState::initial(), fails);
            &&& steps.len() == n
            &&& !t.finished <==> n <= MAX_WRITE_RETRIES
            &&& n <= MAX_WRITE_RETRIES ==> t.retries == n && t.delay_ms == write_delay(n)
            &&& forall|k: int|
                0 <= k < n && k < MAX_WRITE_RETRIES ==> #[trigger] steps[k] == (WriteStep::Retry {
                    rebuild_client: k == 0,
                    delay_ms: write_delay(k as nat) as u64,
                })
            &&& n == MAX_WRITE_RETRIES + 1 ==> steps[n - 1] == WriteStep::GiveUp
        }),
    decreases n,
{
    if n == 0 {
        lemma_delay_after_zero(WRITE_INITIAL_DELAY_MS as nat, WRITE_MAX_DELAY_MS as nat);
    } else {
        let m = (n - 1) as nat;
        lemma_failing_call(m);
        let fails = Seq::new(n, |i: int| WriteOutcome::Failed { connection: true });
        assert(fails.drop_last() =~= Seq::new(m, |i: int| WriteOutcome::Failed { connection: true }));
        lemma_doubling_step(WRITE_INITIAL_DELAY_MS as nat, WRITE_MAX_DELAY_MS as nat, m);
    }
}

/// No retry on other failures: a call whose first attempt fails for a reason
/// other than a connection problem gives up at once and never retries,
/// whatever it is told afterwards.
pub proof fn law_write_no_retry_on_other_errors(outcomes: Seq<WriteOutcome>)
    requires
        outcomes.len() > 0,
        outcomes[0] == (WriteOutcome::Failed { connection: false }),
    ensures
        run_write(WriteState::initial(), outcomes).1[0] == WriteStep::GiveUp,
        retry_count(run_write(WriteState::initial(), outcomes).1) == 0,
    decreases outcomes.len(),
{
    if outcomes.len() == 1 {
        assert(outcomes.drop_last() =~= Seq::<WriteOutcome>::empty());
        let steps = run_write(WriteState::initial(), outcomes).1;
        assert(steps.drop_last() =~= Seq::<WriteStep>::empty());
        assert(retry_count(steps.drop_last()) == 0);
        assert(steps.last() == WriteStep::GiveUp);
    } else {
        let prev = outcomes.drop_last();
        law_write_no_retry_on_other_errors(prev);
        lemma_run_write(prev);
        let (t, steps) = run_write(WriteState::initial(), prev);
        assert(t.finished) by {
            lemma_first_failure_finishes(outcomes.drop_last());
        }
        let all = run_write(WriteState::initial(), outcomes).1;
        assert(all.drop_last() =~= steps);
        assert(all.last() == WriteStep::GiveUp);
        assert(all[0] == steps[0]);
    }
}

proof fn lemma_first_failure_finishes(outcomes: Seq<WriteOutcome>)
    requires
        outcomes.len() > 0,
        outcomes[0] == (WriteOutcome::Failed { connection: false }),
    ensures
        run_write(WriteState::initial(), outcomes).0.finished,
    decreases outcomes.len(),
{
    if outcomes.len() == 1 {
        assert(outcomes.drop_last() =~= Seq::<WriteOutcome>::empty());
    } else {
        lemma_first_failure_finishes(outcomes.drop_last());
    }
}

/// Drives the retries of one write call.
#[derive(Clone, Copy, Debug)]
pub struct WriteRetry {
    state: WriteState,
}

impl View for WriteRetry {
    type V = WriteState;

    closed spec fn view(&self) -> WriteState {
        self.state
    }
}

impl WriteRetry {
    #[verifier::type_invariant]
    closed spec fn inv(self) -> bool {
        self.state.wf()
    }

    /// The state of a call before its first attempt.
    pub fn new() -> (r: WriteRetry)
        ensures
            r@ == WriteState::initial(),
    {
        proof {
            lemma_delay_after_zero(WRITE_INITIAL_DELAY_MS as nat, WRITE_MAX_DELAY_MS as nat);
        }
        WriteRetry { state: WriteState { retries: 0, delay_ms: WRITE_INITIAL_DELAY_MS, finished: false } }
    }

    pub fn state(&self) -> (r: WriteState)
        ensures
            r == self@,
            r.wf(),
    {
        proof {
            use_type_invariant(self);
        }
        self.state
    }

    /// Takes in how an attempt ended and says what to do next.
    pub fn on_outcome(&mut self, o: WriteOutcome) -> (r: WriteStep)
        ensures
            final(self)@ == write_step(old(self)@, o).0,
            r == write_step(old(self)@, o).1,
    {
        proof {
            use_type_invariant(&*self);
        }
        let s = self.state;
        if s.finished {
            return WriteStep::GiveUp;
        }
        match o {
            WriteOutcome::Written => {
                self.state = WriteState { finished: true, ..s };
                WriteStep::Done
            },
            WriteOutcome::Failed { connection } => {
                if !connection || s.retries >= MAX_WRITE_RETRIES {
                    self.state = WriteState { finished: true, ..s };
                    WriteStep::GiveUp
                } else {
                    let retries = s.retries + 1;
                    let policy = BackoffPolicy::new(WRITE_INITIAL_DELAY_MS, WRITE_MAX_DELAY_MS);
                    let delay_ms = policy.next_delay(s.delay_ms);
                    proof {
                        lemma_doubling_step(
                            WRITE_INITIAL_DELAY_MS as nat,
                            WRITE_MAX_DELAY_MS as nat,
                            s.retries as nat,
                        );
                    }
                    self.state = WriteState { retries, delay_ms, finished: false };
                    WriteStep::Retry { rebuild_client: retries == 1, delay_ms: s.delay_ms }
                }
            },
        }
    }
}

} // verus!
