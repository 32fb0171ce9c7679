//! The send pipeline as a verified state machine.
//!
//! A send runs an ordered chain of policies in front of a transport: each
//! policy sees the outbound request and either forwards it toward the
//! transport or answers with a response of its own, and each policy that ran
//! observes the response on the way back. A retry strategy may run the whole
//! chain again after a transient failure. The driver here holds every
//! decision of that loop; the embedding application performs the returned
//! [`Action`] (invoke a policy, invoke the transport, sleep) and reports
//! what happened as the next [`Event`].
//!
//! What is proved of every run: the transport is invoked at most once per
//! attempt and exactly once by every attempt that gets past the policies
//! ([`lemma_transport_once_per_attempt`]); once a policy short-circuits,
//! no further policy invocation and no transport invocation ever happens
//! ([`lemma_short_circuit_stops_downstream`]); the number of attempts never
//! exceeds the retry strategy's bound ([`lemma_attempts_bounded`]); and
//! after the transport answers, every policy observes the response exactly
//! once, innermost first ([`lemma_every_policy_observes_exactly_once`]),
//! and never twice within an attempt
//! ([`lemma_observe_at_most_once_per_attempt`]).

use vstd::prelude::*;
use crate::retry::RetryOptions;
use crate::retry::spec_is_retryable_status;
use crate::retry::is_retryable_status;

verus! {

/// Where the driver stands inside a send.
#[derive(Clone, Copy, PartialEq, Eq, Structural, Debug)]
pub enum Phase {
    /// No attempt has started yet.
    Ready,
    /// Policy `next` is about to see the outbound request.
    Outward { next: usize },
    /// The transport is handling the request.
    AtTransport,
    /// Policy `next` is about to observe the response, unwinding.
    Inward { next: usize },
    /// The attempt failed transiently; the backoff pause is running.
    Sleeping,
    /// The send is over.
    Finished,
}

/// What one attempt ended with.
#[derive(Clone, Copy, PartialEq, Eq, Structural, Debug)]
pub enum Outcome {
    /// The transport delivered a response with this status.
    Delivered { status: u16 },
    /// A policy answered without the transport running.
    ShortCircuited,
    /// The transport failed; `transient` says whether another attempt could
    /// help.
    Failed { transient: bool },
}

/// What the embedding loop reports back to the driver.
#[derive(Clone, Copy, PartialEq, Eq, Structural, Debug)]
pub enum Event {
    /// Begin the send.
    Start,
    /// The invoked policy passed the request on.
    Forwarded,
    /// The invoked policy answered with a response of its own.
    ShortCircuit,
    /// The transport returned a response with this status.
    TransportOk { status: u16 },
    /// The transport failed.
    TransportError { transient: bool },
    /// The policy observed the response.
    Observed,
    /// The backoff pause is over.
    Woke,
}

/// What the embedding loop must do next.
#[derive(Clone, Copy, PartialEq, Eq, Structural, Debug)]
pub enum Action {
    /// Hand the request to policy `index`, then report `Forwarded` or
    /// `ShortCircuit`.
    CallPolicy { index: usize },
    /// Hand the request to the transport, then report `TransportOk` or
    /// `TransportError`.
    CallTransport,
    /// Show the response to policy `index`, then report `Observed`.
    ObservePolicy { index: usize },
    /// Pause for this long, then report `Woke`.
    Sleep { delay_ms: u64 },
    /// The send is over; hand this outcome to the caller.
    Deliver { outcome: Outcome },
}

/// Whether an attempt's outcome is worth another attempt at all. A response
/// a policy synthesized is never retried.
pub open spec fn spec_outcome_retryable(oc: Outcome) -> bool {
    match oc {
        Outcome::Delivered { status } => spec_is_retryable_status(status),
        Outcome::ShortCircuited => false,
        Outcome::Failed { transient } => transient,
    }
}

/// The largest number of attempts a strategy allows: the initial attempt
/// plus its retry count.
pub open spec fn spec_max_attempts(o: RetryOptions) -> int {
    o.max_retries as int + 1
}

/// Drives one send through the policy chain, the transport and the retry
/// strategy.
pub struct Driver {
    /// How many policies stand in front of the transport.
    pub n_policies: usize,
    /// The retry strategy.
    pub retry: RetryOptions,
    /// Attempts started so far.
    pub attempts: u64,
    /// Transport invocations so far.
    pub transport_calls: u64,
    /// The current attempt's outcome, once known.
    pub outcome: Option<Outcome>,
    pub phase: Phase,
}

impl Driver {
    /// The driver's invariant. Beside phase shape it pins the two counters:
    /// every finished attempt invoked the transport exactly once, except an
    /// attempt a policy short-circuited, which never reached it.
    pub open spec fn wf(self) -> bool {
        &&& self.retry.wf()
        &&& self.attempts <= spec_max_attempts(self.retry)
        &&& match self.phase {
            Phase::Ready => self.attempts == 0 && self.transport_calls == 0
                && self.outcome is None,
            Phase::Outward { next } => next < self.n_policies && self.attempts >= 1
                && self.transport_calls == self.attempts - 1 && self.outcome is None,
            Phase::AtTransport => self.attempts >= 1 && self.transport_calls == self.attempts
                && self.outcome is None,
            Phase::Inward { next } => next < self.n_policies && self.attempts >= 1
                && match self.outcome {
                    Some(Outcome::ShortCircuited) => self.transport_calls == self.attempts
                        - 1,
                    Some(_) => self.transport_calls == self.attempts,
                    None => false,
                },
            Phase::Sleeping => self.attempts >= 1 && self.transport_calls == self.attempts
                && match self.outcome {
                    Some(oc) => spec_outcome_retryable(oc) && !(oc is ShortCircuited)
                        && self.attempts <= self.retry.max_retries,
                    None => false,
                },
            Phase::Finished => self.attempts >= 1 && self.outcome is Some && (
            self.transport_calls == self.attempts || (self.outcome
                == Some(Outcome::ShortCircuited) && self.transport_calls == self.attempts
                - 1)),
        }
    }

    /// Which events a state can take.
    pub open spec fn event_fits(self, event: Event) -> bool {
        match (self.phase, event) {
            (Phase::Ready, Event::Start) => true,
            (Phase::Outward { .. }, Event::Forwarded) => true,
            (Phase::Outward { .. }, Event::ShortCircuit) => true,
            (Phase::AtTransport, Event::TransportOk { .. }) => true,
            (Phase::AtTransport, Event::TransportError { .. }) => true,
            (Phase::Inward { .. }, Event::Observed) => true,
            (Phase::Sleeping, Event::Woke) => true,
            _ => false,
        }
    }

    /// A fresh attempt: policy `0` first, or straight to the transport when
    /// the chain is empty.
    pub open spec fn spec_start_attempt(self) -> (Driver, Action) {
        let started = Driver { attempts: (self.attempts + 1) as u64, outcome: None, ..self };
        if self.n_policies > 0 {
            (
                Driver { phase: Phase::Outward { next: 0 }, ..started },
                Action::CallPolicy { index: 0 },
            )
        } else {
            (
                Driver {
                    phase: Phase::AtTransport,
                    transport_calls: (started.transport_calls + 1) as u64,
                    ..started
                },
                Action::CallTransport,
            )
        }
    }

    /// The attempt is over and its outcome is `oc`: retry if the outcome is
    /// transient and the strategy still allows it, deliver otherwise.
    pub open spec fn spec_finish_attempt(self, oc: Outcome, elapsed_ms: u64, jitter: u8) -> (
        Driver,
        Action,
    ) {
        if spec_outcome_retryable(oc) && !self.retry.spec_is_expired(
            elapsed_ms,
            (self.attempts - 1) as u64,
        ) {
            (
                Driver { phase: Phase::Sleeping, ..self },
                Action::Sleep {
                    delay_ms: self.retry.spec_sleep_ms(self.attempts as nat, jitter) as u64,
                },
            )
        } else {
            (Driver { phase: Phase::Finished, ..self }, Action::Deliver { outcome: oc })
        }
    }

    /// The transition function: the state after the event, and the action
    /// the embedding loop must perform next.
    pub open spec fn spec_step(self, event: Event, elapsed_ms: u64, jitter: u8) -> (
        Driver,
        Action,
    ) {
        match (self.phase, event) {
            (Phase::Ready, Event::Start) => self.spec_start_attempt(),
            (Phase::Outward { next }, Event::Forwarded) => {
                if next + 1 < self.n_policies {
                    (
                        Driver { phase: Phase::Outward { next: (next + 1) as usize }, ..self },
                        Action::CallPolicy { index: (next + 1) as usize },
                    )
                } else {
                    (
                        Driver {
                            phase: Phase::AtTransport,
                            transport_calls: (self.transport_calls + 1) as u64,
                            ..self
                        },
                        Action::CallTransport,
                    )
                }
            },
            (Phase::Outward { next }, Event::ShortCircuit) => {
                let sc = Driver { outcome: Some(Outcome::ShortCircuited), ..self };
                if next == 0 {
                    (
                        Driver { phase: Phase::Finished, ..sc },
                        Action::Deliver { outcome: Outcome::ShortCircuited },
                    )
                } else {
                    (
                        Driver { phase: Phase::Inward { next: (next - 1) as usize }, ..sc },
                        Action::ObservePolicy { index: (next - 1) as usize },
                    )
                }
            },
            (Phase::AtTransport, Event::TransportOk { status }) => {
                let done = Driver { outcome: Some(Outcome::Delivered { status }), ..self };
                if self.n_policies > 0 {
                    (
                        Driver {
                            phase: Phase::Inward { next: (self.n_policies - 1) as usize },
                            ..done
                        },
                        Action::ObservePolicy { index: (self.n_policies - 1) as usize },
                    )
                } else {
                    done.spec_finish_attempt(
                        Outcome::Delivered { status },
                        elapsed_ms,
                        jitter,
                    )
                }
            },
            (Phase::AtTransport, Event::TransportError { transient }) => {
                let done = Driver { outcome: Some(Outcome::Failed { transient }), ..self };
                if self.n_policies > 0 {
                    (
                        Driver {
                            phase: Phase::Inward { next: (self.n_policies - 1) as usize },
                            ..done
                        },
                        Action::ObservePolicy { index: (self.n_policies - 1) as usize },
                    )
                } else {
                    done.spec_finish_attempt(Outcome::Failed { transient }, elapsed_ms, jitter)
                }
            },
            (Phase::Inward { next }, Event::Observed) => {
                if next > 0 {
                    (
                        Driver { phase: Phase::Inward { next: (next - 1) as usize }, ..self },
                        Action::ObservePolicy { index: (next - 1) as usize },
                    )
                } else {
                    match self.outcome {
                        Some(oc) => self.spec_finish_attempt(oc, elapsed_ms, jitter),
                        None => (self, Action::Deliver { outcome: Outcome::ShortCircuited }),
                    }
                }
            },
            (Phase::Sleeping, Event::Woke) => self.spec_start_attempt(),
            _ => (self, Action::Deliver { outcome: Outcome::ShortCircuited }),
        }
    }

    /// A driver for a chain of `n_policies` policies under the given retry
    /// strategy.
    pub fn new(n_policies: usize, retry: RetryOptions) -> (r: Driver)
        requires
            retry.wf(),
        ensures
            r == (Driver {
                n_policies,
                retry,
                attempts: 0,
                transport_calls: 0,
                outcome: None,
                phase: Phase::Ready,
            }),
            r.wf(),
    {
        Driver {
            n_policies,
            retry,
            attempts: 0,
            transport_calls: 0,
            outcome: None,
            phase: Phase::Ready,
        }
    }

    fn start_attempt(&mut self) -> (a: Action)
        requires
            old(self).wf(),
            old(self).phase is Ready || old(self).phase is Sleeping,
            old(self).phase is Sleeping ==> old(self).attempts <= old(self).retry.max_retries,
        ensures
            (*final(self), a) == old(self).spec_start_attempt(),
            final(self).wf(),
    {
        self.attempts = self.attempts + 1;
        self.outcome = None;
        if self.n_policies > 0 {
            self.phase = Phase::Outward { next: 0 };
            Action::CallPolicy { index: 0 }
        } else {
            self.transport_calls = self.transport_calls + 1;
            self.phase = Phase::AtTransport;
            Action::CallTransport
        }
    }

    fn finish_attempt(&mut self, oc: Outcome, elapsed_ms: u64, jitter: u8) -> (a: Action)
        requires
            old(self).retry.wf(),
            old(self).attempts >= 1,
            old(self).attempts <= spec_max_attempts(old(self).retry),
            old(self).outcome == Some(oc),
            oc is ShortCircuited ==> old(self).transport_calls == old(self).attempts - 1,
            !(oc is ShortCircuited) ==> old(self).transport_calls == old(self).attempts,
        ensures
            (*final(self), a) == old(self).spec_finish_attempt(oc, elapsed_ms, jitter),
            final(self).wf(),
    {
        let retryable = match oc {
            Outcome::Delivered { status } => is_retryable_status(status),
            Outcome::ShortCircuited => false,
            Outcome::Failed { transient } => transient,
        };
        if retryable && !self.retry.is_expired(elapsed_ms, self.attempts - 1) {
            let delay_ms = self.retry.sleep_duration_ms(self.attempts, jitter);
            self.phase = Phase::Sleeping;
            Action::Sleep { delay_ms }
        } else {
            self.phase = Phase::Finished;
            Action::Deliver { outcome: oc }
        }
    }

    /// Takes the event the embedding loop reports — together with the time
    /// elapsed since the send began and a fresh jitter draw, which only the
    /// retry decision reads — and says what to do next.
    pub fn step(&mut self, event: Event, elapsed_ms: u64, jitter: u8) -> (a: Action)
        requires
            old(self).wf(),
            old(self).event_fits(event),
        ensures
            (*final(self), a) == old(self).spec_step(event, elapsed_ms, jitter),
            final(self).wf(),
    {
        match (self.phase, event) {
            (Phase::Ready, Event::Start) => self.start_attempt(),
            (Phase::Outward { next }, Event::Forwarded) => {
                if next + 1 < self.n_policies {
                    self.phase = Phase::Outward { next: next + 1 };
                    Action::CallPolicy { index: next + 1 }
                } else {
                    self.transport_calls = self.transport_calls + 1;
                    self.phase = Phase::AtTransport;
                    Action::CallTransport
                }
            },
            (Phase::Outward { next }, Event::ShortCircuit) => {
                self.outcome = Some(Outcome::ShortCircuited);
                if next == 0 {
                    self.phase = Phase::Finished;
                    Action::Deliver { outcome: Outcome::ShortCircuited }
                } else {
                    self.phase = Phase::Inward { next: next - 1 };
                    Action::ObservePolicy { index: next - 1 }
                }
            },
            (Phase::AtTransport, Event::TransportOk { status }) => {
                self.outcome = Some(Outcome::Delivered { status });
                if self.n_policies > 0 {
                    self.phase = Phase::Inward { next: self.n_policies - 1 };
                    Action::ObservePolicy { index: self.n_policies - 1 }
                } else {
                    self.finish_attempt(Outcome::Delivered { status }, elapsed_ms, jitter)
                }
            },
            (Phase::AtTransport, Event::TransportError { transient }) => {
                self.outcome = Some(Outcome::Failed { transient });
                if self.n_policies > 0 {
                    self.phase = Phase::Inward { next: self.n_policies - 1 };
                    Action::ObservePolicy { index: self.n_policies - 1 }
                } else {
                    self.finish_attempt(Outcome::Failed { transient }, elapsed_ms, jitter)
                }
            },
            (Phase::Inward { next }, Event::Observed) => {
                if next > 0 {
                    self.phase = Phase::Inward { next: next - 1 };
                    Action::ObservePolicy { index: next - 1 }
                } else {
                    match self.outcome {
                        Some(oc) => self.finish_attempt(oc, elapsed_ms, jitter),
                        None => {
                            proof {
                                assert(false);
                            }
                            Action::Deliver { outcome: Outcome::ShortCircuited }
                        },
                    }
                }
            },
            (Phase::Sleeping, Event::Woke) => self.start_attempt(),
            _ => {
                proof {
                    assert(false);
                }
                Action::Deliver { outcome: Outcome::ShortCircuited }
            },
        }
    }
}

/// One recorded transition of a driver, with the event's inputs.
pub struct Step {
    pub pre: Driver,
    pub event: Event,
    pub elapsed_ms: u64,
    pub jitter: u8,
    pub post: Driver,
    pub action: Action,
}

/// A step the driver itself could have taken.
pub open spec fn step_ok(s: Step) -> bool {
    &&& s.pre.wf()
    &&& s.pre.event_fits(s.event)
    &&& (s.post, s.action) == s.pre.spec_step(s.event, s.elapsed_ms, s.jitter)
}

/// A run of the driver: every step is one of its transitions, and they
/// chain.
pub open spec fn trace_ok(tr: Seq<Step>) -> bool {
    &&& forall|m: int| 0 <= m < tr.len() ==> step_ok(#[trigger] tr[m])
    &&& forall|m: int| 0 <= m < tr.len() - 1 ==> tr[m].post == tr[m + 1].pre
}

/// How many times the run invoked the transport.
pub open spec fn count_transport_calls(tr: Seq<Step>) -> int
    decreases tr.len(),
{
    if tr.len() == 0 {
        0
    } else {
        count_transport_calls(tr.drop_last()) + (if tr.last().action is CallTransport {
            1int
        } else {
            0int
        })
    }
}

/// What one step keeps fixed and how it moves the counters: the strategy
/// and the chain length never change, attempts only grow, and the transport
/// counter grows exactly when the step invokes the transport.
proof fn lemma_step_shape(s: Step)
    requires
        step_ok(s),
    ensures
        s.post.wf(),
        s.post.retry == s.pre.retry,
        s.post.n_policies == s.pre.n_policies,
        s.post.attempts >= s.pre.attempts,
        s.post.transport_calls == s.pre.transport_calls + (if s.action is CallTransport {
            1int
        } else {
            0int
        }),
{
}

/// The transport runs at most once per attempt, and exactly once in every
/// attempt that gets past the policy chain: over any run from a fresh
/// driver, the transport invocations number exactly the driver's transport
/// counter, that counter never exceeds the attempt counter, and the two are
/// equal from the moment an attempt reaches the transport.
pub proof fn lemma_transport_once_per_attempt(tr: Seq<Step>)
    requires
        trace_ok(tr),
        tr.len() > 0,
        tr[0].pre.phase is Ready,
    ensures
        count_transport_calls(tr) == tr.last().post.transport_calls,
        tr.last().post.transport_calls <= tr.last().post.attempts,
        tr.last().post.phase is AtTransport || tr.last().post.phase is Sleeping
            ==> tr.last().post.transport_calls == tr.last().post.attempts,
        tr.last().post.retry == tr[0].pre.retry,
    decreases tr.len(),
{
    let last = tr.last();
    lemma_step_shape(last);
    if tr.len() == 1 {
        assert(count_transport_calls(tr.drop_last()) == 0);
    } else {
        let front = tr.drop_last();
        assert(trace_ok(front)) by {
            assert(forall|m: int| 0 <= m < front.len() ==> step_ok(#[trigger] front[m]));
            assert(forall|m: int|
                0 <= m < front.len() - 1 ==> front[m].post == front[m + 1].pre);
        }
        lemma_transport_once_per_attempt(front);
        assert(front.last().post == last.pre);
    }
}

/// The retry strategy never exceeds its configured maximum number of
/// attempts: neither the attempt counter nor the number of transport
/// invocations of a run can pass the strategy's bound.
pub proof fn lemma_attempts_bounded(tr: Seq<Step>)
    requires
        trace_ok(tr),
        tr.len() > 0,
        tr[0].pre.phase is Ready,
    ensures
        tr.last().post.attempts <= spec_max_attempts(tr[0].pre.retry),
        count_transport_calls(tr) <= spec_max_attempts(tr[0].pre.retry),
{
    lemma_transport_once_per_attempt(tr);
    lemma_step_shape(tr.last());
}

/// A driver that a policy has short-circuited: the response travels back
/// through the policies that already ran, and nothing else can happen.
pub open spec fn sc_latched(d: Driver) -> bool {
    ||| (d.phase is Inward && d.outcome == Some(Outcome::ShortCircuited))
    ||| d.phase is Finished
}

proof fn lemma_latched_step(s: Step)
    requires
        step_ok(s),
        sc_latched(s.pre),
    ensures
        sc_latched(s.post),
        !(s.action is CallPolicy),
        !(s.action is CallTransport),
{
}

proof fn lemma_latched_at(tr: Seq<Step>, j: int, m: int)
    requires
        trace_ok(tr),
        0 <= j < tr.len(),
        tr[j].event is ShortCircuit,
        j < m < tr.len(),
    ensures
        sc_latched(tr[m].pre),
    decreases m,
{
    if m == j + 1 {
        assert(step_ok(tr[j]));
        assert(tr[j].post == tr[m].pre);
    } else {
        lemma_latched_at(tr, j, m - 1);
        lemma_latched_step(tr[m - 1]);
        assert(tr[m - 1].post == tr[m].pre);
    }
}

/// A policy that short-circuits prevents all downstream policies and the
/// transport from running: from the short-circuit on, the run never invokes
/// a policy with the request and never invokes the transport again.
pub proof fn lemma_short_circuit_stops_downstream(tr: Seq<Step>, j: int)
    requires
        trace_ok(tr),
        0 <= j < tr.len(),
        tr[j].event is ShortCircuit,
    ensures
        forall|m: int|
            j < m < tr.len() ==> !((#[trigger] tr[m].action) is CallPolicy) && !(
            tr[m].action is CallTransport),
{
    assert forall|m: int|
        j < m < tr.len() implies !((#[trigger] tr[m].action) is CallPolicy) && !(
    tr[m].action is CallTransport) by {
        lemma_latched_at(tr, j, m);
        lemma_latched_step(tr[m]);
    }
}

/// The index a step's action observes, or `-1` when it observes none.
pub open spec fn observe_index(a: Action) -> int {
    match a {
        Action::ObservePolicy { index } => index as int,
        _ => -1,
    }
}

/// A driver that is unwinding an attempt, with no policy above `bound`
/// still to observe.
spec fn inward_at_most(d: Driver, bound: int) -> bool {
    match d.phase {
        Phase::Inward { next } => next <= bound,
        Phase::Sleeping => true,
        Phase::Finished => true,
        _ => false,
    }
}

proof fn lemma_inward_bound(tr: Seq<Step>, j: int, m: int)
    requires
        trace_ok(tr),
        0 <= j < tr.len(),
        tr[j].action is ObservePolicy,
        j < m < tr.len(),
        forall|i: int| j < i < m ==> !((#[trigger] tr[i].event) is Woke) && !(tr[i].event is Start),
    ensures
        inward_at_most(tr[m].pre, observe_index(tr[j].action)),
    decreases m,
{
    if m == j + 1 {
        assert(step_ok(tr[j]));
        assert(tr[j].post == tr[m].pre);
    } else {
        lemma_inward_bound(tr, j, m - 1);
        assert(step_ok(tr[m - 1]));
        assert(tr[m - 1].post == tr[m].pre);
    }
}

/// After the transport answers, every policy that ran observes the
/// response exactly once, from the innermost outwards: the `d`-th step of
/// the unwind shows the response to policy `n - 1 - d`.
pub proof fn lemma_every_policy_observes_exactly_once(tr: Seq<Step>, t: int, d: int)
    requires
        trace_ok(tr),
        0 <= t < tr.len(),
        tr[t].event is TransportOk || tr[t].event is TransportError,
        tr[t].pre.n_policies > 0,
        0 <= d < tr[t].pre.n_policies,
        t + d < tr.len(),
    ensures
        tr[t + d].action == (Action::ObservePolicy {
            index: (tr[t].pre.n_policies - 1 - d) as usize,
        }),
        tr[t + d].post.phase == (Phase::Inward {
            next: (tr[t].pre.n_policies - 1 - d) as usize,
        }),
    decreases d,
{
    if d == 0 {
        assert(step_ok(tr[t]));
    } else {
        lemma_every_policy_observes_exactly_once(tr, t, d - 1);
        assert(step_ok(tr[t + d]));
        assert(tr[t + d - 1].post == tr[t + d].pre);
    }
}

/// Within one attempt, each policy observes the response at most once: the
/// indices of successive observations with no new attempt started in
/// between strictly decrease.
pub proof fn lemma_observe_at_most_once_per_attempt(tr: Seq<Step>, j: int, k: int)
    requires
        trace_ok(tr),
        0 <= j < k < tr.len(),
        tr[j].action is ObservePolicy,
        tr[k].action is ObservePolicy,
        forall|i: int| j < i <= k ==> !((#[trigger] tr[i].event) is Woke) && !(tr[i].event is Start),
    ensures
        observe_index(tr[k].action) < observe_index(tr[j].action),
{
    lemma_inward_bound(tr, j, k);
    assert(step_ok(tr[k]));
}

} // verus!
