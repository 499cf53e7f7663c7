//! The decisions of the head-subscription loop: connect, subscribe, hand each
//! head over for processing, reconnect with backoff, and give up after too many
//! failed connections in a row. The caller performs each action and reports
//! what happened.

use crate::backoff::{BackoffPolicy, delay_after, doubled_delay, lemma_delay_after_zero, lemma_doubling_step};
use vstd::prelude::*;

verus! {

/// Failed connections in a row after which the subscription gives up.
pub const MAX_RECONNECT_ATTEMPTS: u32 = 10;

/// The reconnect delay after a successful connection.
pub const RECONNECT_INITIAL_DELAY_MS: u64 = 1000;

/// The longest reconnect delay.
pub const RECONNECT_MAX_DELAY_MS: u64 = 30000;

#[derive(Clone, Copy, Debug, PartialEq, Eq, Structural)]
pub enum Phase {
    /// Opening the streaming connection.
    Connecting,
    /// Connected; the head subscription is requested.
    Subscribing,
    /// Receiving heads.
    Subscribed,
    /// Stopped by a shutdown signal.
    ShutDown,
    /// Stopped after too many failed connections.
    Failed,
}

/// What the caller observed.
#[derive(Clone, Copy, Debug, PartialEq, Eq, Structural)]
pub enum LinkEvent {
    ConnectFailed,
    Connected,
    SubscribeFailed,
    SubscribeOk,
    HeadReceived,
    /// The stream reported an error or was closed.
    StreamEnded,
    ShutdownSignal,
}

/// What the caller does next.
#[derive(Clone, Copy, Debug, PartialEq, Eq, Structural)]
pub enum LinkAction {
    /// Open the connection now.
    Connect,
    /// Sleep for `delay_ms`, then open the connection.
    WaitThenConnect { delay_ms: u64 },
    /// Request the head subscription.
    Subscribe,
    /// Wait for the next head.
    AwaitHead,
    /// Process the head just received, then wait for the next one.
    ProcessHead,
    /// Return normally.
    Stop,
    /// Return a fatal error: the connection cannot be made.
    Fail,
}

/// The connection state: the phase, the failed connections since the last
/// success, and the delay before the next reconnect.
#[derive(Clone, Copy, Debug, PartialEq, Eq, Structural)]
pub struct LinkState {
    pub phase: Phase,
    pub attempts: u32,
    pub backoff_ms: u64,
}

/// The reconnect delay in force after `n` failed connections in a row.
pub open spec fn reconnect_delay(n: nat) -> nat {
    delay_after(RECONNECT_INITIAL_DELAY_MS as nat, RECONNECT_MAX_DELAY_MS as nat, n)
}

impl LinkState {
    /// The delay follows the failure count, which reaches the limit exactly
    /// when the subscription has failed.
    pub open spec fn wf(self) -> bool {
        &&& self.backoff_ms == reconnect_delay(self.attempts as nat)
        &&& self.attempts <= MAX_RECONNECT_ATTEMPTS
        &&& (self.attempts == MAX_RECONNECT_ATTEMPTS <==> self.phase is Failed)
    }

    pub open spec fn initial() -> LinkState {
        LinkState { phase: Phase::Connecting, attempts: 0, backoff_ms: RECONNECT_INITIAL_DELAY_MS }
    }
}

/// The action that carries on a phase when an event does not apply to it.
pub open spec fn resume_action(phase: Phase) -> LinkAction {
    match phase {
        Phase::Connecting => LinkAction::Connect,
        Phase::Subscribing => LinkAction::Subscribe,
        Phase::Subscribed => LinkAction::AwaitHead,
        Phase::ShutDown => LinkAction::Stop,
        Phase::Failed => LinkAction::Fail,
    }
}

/// One transition. Both stopped phases are final. A shutdown signal stops any
/// other phase. A failed connection counts one more failure: at the limit the
/// subscription fails, else the caller sleeps for the current delay, which then
/// doubles up to its cap. A connection resets count and delay. A failed
/// subscription or an ended stream goes back to connecting, at once.
pub open spec fn link_step(s: LinkState, e: LinkEvent) -> (LinkState, LinkAction) {
    match (s.phase, e) {
        (Phase::ShutDown, _) => (s, LinkAction::Stop),
        (Phase::Failed, _) => (s, LinkAction::Fail),
        (_, LinkEvent::ShutdownSignal) => (
            LinkState { phase: Phase::ShutDown, ..s },
            LinkAction::Stop,
        ),
        (Phase::Connecting, LinkEvent::ConnectFailed) => {
            let attempts = (s.attempts + 1) as u32;
            let backoff_ms = doubled_delay(s.backoff_ms as nat, RECONNECT_MAX_DELAY_MS as nat) as u64;
            if attempts >= MAX_RECONNECT_ATTEMPTS {
                (LinkState { phase: Phase::Failed, attempts, backoff_ms }, LinkAction::Fail)
            } else {
                (
                    LinkState { phase: Phase::Connecting, attempts, backoff_ms },
                    LinkAction::WaitThenConnect { delay_ms: s.backoff_ms },
                )
            }
        },
        (Phase::Connecting, LinkEvent::Connected) => (
            LinkState {
                phase: Phase::Subscribing,
                attempts: 0,
                backoff_ms: RECONNECT_INITIAL_DELAY_MS,
            },
            LinkAction::Subscribe,
        ),
        (Phase::Subscribing, LinkEvent::SubscribeOk) => (
            LinkState { phase: Phase::Subscribed, ..s },
            LinkAction::AwaitHead,
        ),
        (Phase::Subscribing, LinkEvent::SubscribeFailed) => (
            LinkState { phase: Phase::Connecting, ..s },
            LinkAction::Connect,
        ),
        (Phase::Subscribed, LinkEvent::HeadReceived) => (s, LinkAction::ProcessHead),
        (Phase::Subscribed, LinkEvent::StreamEnded) => (
            LinkState { phase: Phase::Connecting, ..s },
            LinkAction::Connect,
        ),
        _ => (s, resume_action(s.phase)),
    }
}

/// The state reached, and the actions taken, after feeding `events` in order.
pub open spec fn run_link(s: LinkState, events: Seq<LinkEvent>) -> (LinkState, Seq<LinkAction>)
    decreases events.len(),
{
    if events.len() == 0 {
        (s, Seq::empty())
    } else {
        let (t, acts) = run_link(s, events.drop_last());
        let (u, a) = link_step(t, events.last());
        (u, acts.push(a))
    }
}

/// `n` failed connections in a row.
pub open spec fn connect_failures(n: nat) -> Seq<LinkEvent> {
    Seq::new(n, |i: int| LinkEvent::ConnectFailed)
}

proof fn lemma_run_failures(s: LinkState, n: nat)
    requires
        s.wf(),
        (s.phase is Connecting),
        s.attempts == 0,
        n <= MAX_RECONNECT_ATTEMPTS,
    ensures
        ({
            let (t, acts) = run_link(s, connect_failures(n));
            &&& t.attempts == n
            &&& t.backoff_ms == reconnect_delay(n)
            &&& (n < MAX_RECONNECT_ATTEMPTS ==> t.phase is Connecting)
            &&& (n == MAX_RECONNECT_ATTEMPTS ==> t.phase is Failed)
            &&& acts.len() == n
            &&& forall|k: int|
                0 <= k < n && k < MAX_RECONNECT_ATTEMPTS - 1 ==> #[trigger] acts[k]
                    == (LinkAction::WaitThenConnect { delay_ms: reconnect_delay(k as nat) as u64 })
            &&& (n == MAX_RECONNECT_ATTEMPTS ==> acts[n - 1] == LinkAction::Fail)
        }),
    decreases n,
{
    if n > 0 {
        let m = (n - 1) as nat;
        lemma_run_failures(s, m);
        assert(connect_failures(n).drop_last() =~= connect_failures(m));
        lemma_doubling_step(RECONNECT_INITIAL_DELAY_MS as nat, RECONNECT_MAX_DELAY_MS as nat, m);
    }
}

proof fn lemma_run_failed(t: LinkState, later: Seq<LinkEvent>)
    requires
        (t.phase is Failed),
    ensures
        run_link(t, later).0 == t,
        run_link(t, later).1.len() == later.len(),
        forall|i: int| 0 <= i < later.len() ==> #[trigger] run_link(t, later).1[i] == LinkAction::Fail,
    decreases later.len(),
{
    if later.len() > 0 {
        lemma_run_failed(t, later.drop_last());
    }
}

/// Backoff across failed connections: from a fresh connection state, after `n`
/// failures in a row (short of the limit) the delay in force is
/// `min(initial * 2^n, cap)`, and the sleep after the `k`-th failure (from zero)
/// was `min(initial * 2^k, cap)`.
pub proof fn law_reconnect_backoff(s: LinkState, n: nat)
    requires
        s.wf(),
        (s.phase is Connecting),
        s.attempts == 0,
        n < MAX_RECONNECT_ATTEMPTS,
    ensures
        (run_link(s, connect_failures(n)).0.phase is Connecting),
        run_link(s, connect_failures(n)).0.attempts == n,
        run_link(s, connect_failures(n)).0.backoff_ms == reconnect_delay(n),
        forall|k: int|
            0 <= k < n ==> #[trigger] run_link(s, connect_failures(n)).1[k]
                == (LinkAction::WaitThenConnect { delay_ms: reconnect_delay(k as nat) as u64 }),
{
    lemma_run_failures(s, n);
}

/// A successful connection, after any number of failures, puts the delay back
/// to its initial value and the failure count back to zero.
pub proof fn law_reconnect_backoff_resets(s: LinkState)
    requires
        s.wf(),
        (s.phase is Connecting),
    ensures
        link_step(s, LinkEvent::Connected).0.backoff_ms == RECONNECT_INITIAL_DELAY_MS,
        link_step(s, LinkEvent::Connected).0.attempts == 0,
        reconnect_delay(0) == RECONNECT_INITIAL_DELAY_MS,
{
    lemma_delay_after_zero(RECONNECT_INITIAL_DELAY_MS as nat, RECONNECT_MAX_DELAY_MS as nat);
}

/// Giving up: from a fresh connection state, the tenth failed connection in a
/// row fails the subscription; only the first nine were followed by a
/// reconnect, so ten connections were tried in all, and whatever is reported
/// afterwards, no further connection is made.
pub proof fn law_gives_up_after_max_failures(s: LinkState, later: Seq<LinkEvent>)
    requires
        s.wf(),
        (s.phase is Connecting),
        s.attempts == 0,
    ensures
        ({
            let (t, acts) = run_link(s, connect_failures(MAX_RECONNECT_ATTEMPTS as nat));
            &&& t.phase is Failed
            &&& acts.len() == MAX_RECONNECT_ATTEMPTS
            &&& forall|k: int| 0 <= k < MAX_RECONNECT_ATTEMPTS - 1 ==> #[trigger] acts[k] is WaitThenConnect
            &&& acts[MAX_RECONNECT_ATTEMPTS - 1] == LinkAction::Fail
            &&& forall|i: int| 0 <= i < later.len() ==> #[trigger] run_link(t, later).1[i] == LinkAction::Fail
        }),
{
    let n = MAX_RECONNECT_ATTEMPTS as nat;
    lemma_run_failures(s, n);
    let (t, acts) = run_link(s, connect_failures(n));
    lemma_run_failed(t, later);
    assert forall|k: int| 0 <= k < MAX_RECONNECT_ATTEMPTS - 1 implies #[trigger] acts[k] is WaitThenConnect by {
        assert(acts[k] == LinkAction::WaitThenConnect { delay_ms: reconnect_delay(k as nat) as u64 });
    }
}

/// Drives the subscription loop's decisions.
#[derive(Clone, Copy, Debug)]
pub struct SubscriptionManager {
    state: LinkState,
}

impl View for SubscriptionManager {
    type V = LinkState;

    closed spec fn view(&self) -> LinkState {
        self.state
    }
}

impl SubscriptionManager {
    #[verifier::type_invariant]
    closed spec fn inv(self) -> bool {
        self.state.wf()
    }

    /// A manager about to make its first connection.
    pub fn new() -> (r: SubscriptionManager)
        ensures
            r@ == LinkState::initial(),
    {
        proof {
            lemma_delay_after_zero(
                RECONNECT_INITIAL_DELAY_MS as nat,
                RECONNECT_MAX_DELAY_MS as nat,
            );
        }
        SubscriptionManager {
            state: LinkState {
                phase: Phase::Connecting,
                attempts: 0,
                backoff_ms: RECONNECT_INITIAL_DELAY_MS,
            },
        }
    }

    pub fn state(&self) -> (r: LinkState)
        ensures
            r == self@,
            r.wf(),
    {
        proof {
            use_type_invariant(self);
        }
        self.state
    }

    /// Takes in what happened and says what to do next.
    pub fn on_event(&mut self, e: LinkEvent) -> (r: LinkAction)
        ensures
            final(self)@ == link_step(old(self)@, e).0,
            r == link_step(old(self)@, e).1,
    {
        proof {
            use_type_invariant(&*self);
        }
        let s = self.state;
        match (s.phase, e) {
            (Phase::ShutDown, _) => LinkAction::Stop,
            (Phase::Failed, _) => LinkAction::Fail,
            (_, LinkEvent::ShutdownSignal) => {
                self.state = LinkState { phase: Phase::ShutDown, ..s };
                LinkAction::Stop
            },
            (Phase::Connecting, LinkEvent::ConnectFailed) => {
                let attempts = s.attempts + 1;
                let policy = BackoffPolicy::new(RECONNECT_INITIAL_DELAY_MS, RECONNECT_MAX_DELAY_MS);
                let backoff_ms = policy.next_delay(s.backoff_ms);
                proof {
                    lemma_doubling_step(
                        RECONNECT_INITIAL_DELAY_MS as nat,
                        RECONNECT_MAX_DELAY_MS as nat,
                        s.attempts as nat,
                    );
                }
                if attempts >= MAX_RECONNECT_ATTEMPTS {
                    self.state = LinkState { phase: Phase::Failed, attempts, backoff_ms };
                    LinkAction::Fail
                } else {
                    self.state = LinkState { phase: Phase::Connecting, attempts, backoff_ms };
                    LinkAction::WaitThenConnect { delay_ms: s.backoff_ms }
                }
            },
            (Phase::Connecting, LinkEvent::Connected) => {
                proof {
                    lemma_delay_after_zero(
                        RECONNECT_INITIAL_DELAY_MS as nat,
                        RECONNECT_MAX_DELAY_MS as nat,
                    );
                }
                self.state = LinkState {
                    phase: Phase::Subscribing,
                    attempts: 0,
                    backoff_ms: RECONNECT_INITIAL_DELAY_MS,
                };
                LinkAction::Subscribe
            },
            (Phase::Subscribing, LinkEvent::SubscribeOk) => {
                self.state = LinkState { phase: Phase::Subscribed, ..s };
                LinkAction::AwaitHead
            },
            (Phase::Subscribing, LinkEvent::SubscribeFailed) => {
                self.state = LinkState { phase: Phase::Connecting, ..s };
                LinkAction::Connect
            },
            (Phase::Subscribed, LinkEvent::HeadReceived) => LinkAction::ProcessHead,
            (Phase::Subscribed, LinkEvent::StreamEnded) => {
                self.state = LinkState { phase: Phase::Connecting, ..s };
                LinkAction::Connect
            },
            (Phase::Connecting, _) => LinkAction::Connect,
            (Phase::Subscribing, _) => LinkAction::Subscribe,
            (Phase::Subscribed, _) => LinkAction::AwaitHead,
        }
    }
}

} // verus!
