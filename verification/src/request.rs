//! One logical request as a state machine: the attempt loop with its body
//! resets, node selections and delays.
//!
//! The machine decides; its driver acts. Each step takes what happened and
//! answers what to do next: rewind the body, send the request to a host,
//! sleep, or hand the outcome to the caller.

use crate::client::ClientState;
use crate::node::all_tried;
use crate::node::chosen;
use crate::node::lemma_choice_exists;
use crate::node::lemma_choice_is_unique;
use crate::node::successor;
use crate::node::visited;
use crate::node::ConfigurationError;
use crate::node::NodeSelector;
use crate::qos::Qos;
use crate::qos::QosModel;
use crate::retry::decision;
use crate::retry::idempotent_under;
use crate::retry::retryable;
use crate::retry::Method;
use crate::retry::Outcome;
use crate::retry::OutcomeModel;
use crate::retry::RetryDecision;
use crate::retry::RetryPolicy;
use std::sync::Arc;
use vstd::prelude::*;

verus! {

/// The one error that ends a logical request.
#[derive(Clone, Debug, PartialEq, Eq)]
pub enum RequestError {
    /// No request could be made at all.
    Configuration(ConfigurationError),
    /// The last attempt failed and is not answered by another one: its
    /// outcome, as it was.
    Failed(Outcome),
    /// The attempts are used up: how many were made, and how the last ended.
    RetryBudgetExhausted { attempts: u64, last: Outcome },
    /// The caller gave the request up.
    Cancelled,
}

/// Where a logical request stands.
#[derive(Clone, Debug, PartialEq, Eq)]
pub enum Phase {
    /// Not started.
    Idle,
    /// An attempt is under way at the host with this place in the list.
    Attempting(usize),
    /// The delay before the retry of this outcome is running.
    Waiting(Outcome),
    /// The body is being rewound for the retry of this outcome.
    Resetting(Outcome),
    /// The caller has its answer.
    Finished,
}

/// What the driver reports to the machine.
#[derive(Clone, Debug, PartialEq, Eq)]
pub enum Event {
    /// The caller submitted the request.
    Start,
    /// The attempt ended; `body_written` tells whether the body was written
    /// to during it.
    AttemptDone { outcome: Outcome, body_written: bool },
    /// The delay has passed.
    DelayElapsed,
    /// The body was asked to rewind; `true` iff it could.
    ResetDone(bool),
    /// The caller dropped the request.
    Cancelled,
}

/// What the machine asks of the driver.
#[derive(Clone, Debug, PartialEq, Eq)]
pub enum Action {
    /// Rewind the body, then report `ResetDone`.
    ResetBody,
    /// Send the request to the host at place `node`, as attempt number
    /// `attempt`, then report `AttemptDone`.
    Attempt { node: usize, attempt: u64 },
    /// Sleep for so many milliseconds, then report `DelayElapsed`.
    Sleep(u64),
    /// Hand the response of the last attempt to the caller.
    Succeed,
    /// Hand this error to the caller.
    Fail(RequestError),
    /// The event does not apply where the request stands: do nothing.
    Nothing,
}

/// A logical request as contracts see it.
pub struct RequestModel {
    /// The client state that the request started with.
    pub snapshot: ClientState,
    /// The rotation cursor of the request's node selection.
    pub cursor: int,
    /// Whether the request counts as idempotent.
    pub idempotent: bool,
    pub phase: Phase,
    /// The number of physical attempts started.
    pub attempts: nat,
    /// The hosts tried, in order.
    pub tried: Seq<usize>,
    /// Whether the body has been written to since it was last at its start.
    pub dirty: bool,
}

impl RequestModel {
    /// The number of candidate hosts.
    pub open spec fn hosts(self) -> int {
        self.snapshot.candidates().len() as int
    }

    /// The retry policy.
    pub open spec fn policy(self) -> RetryPolicy {
        self.snapshot.retry_policy()
    }

    /// The host that the next attempt goes to.
    pub open spec fn pick(self) -> int {
        choose|i: int| chosen(self.cursor, self.hosts(), self.tried, i)
    }

    /// The request with its answer given.
    pub open spec fn finished(self) -> RequestModel {
        RequestModel { phase: Phase::Finished, ..self }
    }

    /// The next attempt begins: a host is selected, or the request fails for
    /// want of candidates.
    pub open spec fn dispatch(self) -> (RequestModel, Action) {
        if self.hosts() == 0 {
            (
                self.finished(),
                Action::Fail(RequestError::Configuration(ConfigurationError::NoCandidates)),
            )
        } else {
            let node = self.pick();
            (
                RequestModel {
                    phase: Phase::Attempting(node as usize),
                    attempts: self.attempts + 1,
                    tried: self.tried.push(node as usize),
                    cursor: successor(node, self.hosts()),
                    ..self
                },
                Action::Attempt { node: node as usize, attempt: (self.attempts + 1) as u64 },
            )
        }
    }

    /// An attempt has ended with `outcome`.
    pub open spec fn conclude(self, outcome: Outcome, body_written: bool, sample: u64) -> (
        RequestModel,
        Action,
    ) {
        let after = RequestModel { dirty: self.dirty || body_written, ..self };
        if outcome@ == OutcomeModel::Response(QosModel::Success) {
            (after.finished(), Action::Succeed)
        } else {
            match decision(self.policy(), self.attempts, self.idempotent, outcome@, sample) {
                RetryDecision::Retry(delay) => (
                    RequestModel { phase: Phase::Waiting(outcome), ..after },
                    Action::Sleep(delay),
                ),
                RetryDecision::GiveUp => (
                    after.finished(),
                    Action::Fail(
                        if retryable(self.policy().server_qos, self.idempotent, outcome@) {
                            RequestError::RetryBudgetExhausted {
                                attempts: self.attempts as u64,
                                last: outcome,
                            }
                        } else {
                            RequestError::Failed(outcome)
                        },
                    ),
                ),
            }
        }
    }

    /// What follows `event`: where the request stands then, and what the
    /// driver is to do.
    ///
    /// A finished request takes no event. A cancellation ends any other. A
    /// start or an elapsed delay leads to the next attempt, after a rewind of
    /// the body if it was written to. A refused rewind ends the request with
    /// the failure that asked for the retry. An event that does not fit the
    /// phase changes nothing.
    pub open spec fn next(self, event: Event, sample: u64) -> (RequestModel, Action) {
        match (self.phase, event) {
            (Phase::Finished, _) => (self, Action::Nothing),
            (_, Event::Cancelled) => (self.finished(), Action::Fail(RequestError::Cancelled)),
            (Phase::Idle, Event::Start) => self.dispatch(),
            (Phase::Attempting(_), Event::AttemptDone { outcome, body_written }) => self.conclude(
                outcome,
                body_written,
                sample,
            ),
            (Phase::Waiting(failure), Event::DelayElapsed) => if self.dirty {
                (RequestModel { phase: Phase::Resetting(failure), ..self }, Action::ResetBody)
            } else {
                self.dispatch()
            },
            (Phase::Resetting(_), Event::ResetDone(true)) => RequestModel {
                dirty: false,
                ..self
            }.dispatch(),
            (Phase::Resetting(failure), Event::ResetDone(false)) => (
                self.finished(),
                Action::Fail(RequestError::Failed(failure)),
            ),
            _ => (self, Action::Nothing),
        }
    }

    /// What holds of a request wherever it stands: the cursor points into
    /// the candidate list, which is no longer than a machine can hold, no
    /// more attempts were started than the policy allows, and a request that
    /// has not started has made none.
    pub open spec fn wf(self) -> bool {
        &&& 0 <= self.cursor
        &&& self.cursor < self.hosts() || (self.hosts() == 0 && self.cursor == 0)
        &&& self.hosts() <= usize::MAX
        &&& self.attempts <= self.policy().max_retries + 1
        &&& self.tried.len() == self.attempts
        &&& match self.phase {
            Phase::Idle => self.attempts == 0 && !self.dirty,
            Phase::Attempting(node) => self.attempts >= 1 && node < self.hosts(),
            Phase::Waiting(_) => 1 <= self.attempts <= self.policy().max_retries,
            Phase::Resetting(_) => 1 <= self.attempts <= self.policy().max_retries && self.dirty,
            Phase::Finished => true,
        }
    }
}

/// A logical request.
pub struct Request {
    state: Arc<ClientState>,
    selector: NodeSelector,
    idempotent: bool,
    phase: Phase,
    attempts: u64,
    tried: Vec<usize>,
    dirty: bool,
}

impl View for Request {
    type V = RequestModel;

    closed spec fn view(&self) -> RequestModel {
        RequestModel {
            snapshot: *self.state,
            cursor: self.selector.cursor(),
            idempotent: self.idempotent,
            phase: self.phase,
            attempts: self.attempts as nat,
            tried: self.tried@,
            dirty: self.dirty,
        }
    }
}

impl Request {
    /// What holds of a request wherever it stands: what holds of its model,
    /// and that its node selection goes over the candidate list of its
    /// state.
    pub closed spec fn wf(&self) -> bool {
        &&& self@.wf()
        &&& self.selector.wf()
        &&& self.selector.len() == self@.hosts()
    }

    /// A request with method `method` against the client state `state`, not
    /// started yet. Its node selection starts at place `rotation` of the
    /// candidate list, taken round the list.
    pub fn new(state: Arc<ClientState>, method: Method, rotation: usize) -> (r: Request)
        ensures
            r.wf(),
            r@.wf(),
            r@.snapshot == *state,
            r@.phase == Phase::Idle,
            r@.attempts == 0,
            r@.tried == Seq::<usize>::empty(),
            !r@.dirty,
            r@.idempotent == idempotent_under(state.retry_policy().idempotency, method),
            r@.hosts() > 0 ==> r@.cursor == rotation % (r@.hosts() as usize),
    {
        let selector = NodeSelector::new(state.node_count(), rotation);
        let idempotent = state.policy().idempotency.applies_to(method);
        Request {
            state,
            selector,
            idempotent,
            phase: Phase::Idle,
            attempts: 0,
            tried: Vec::new(),
            dirty: false,
        }
    }

    /// The client state that the request started with.
    pub fn state(&self) -> (s: &Arc<ClientState>)
        ensures
            **s == self@.snapshot,
    {
        &self.state
    }

    /// The number of physical attempts started.
    pub fn attempts(&self) -> (n: u64)
        ensures
            n == self@.attempts,
    {
        self.attempts
    }

    /// Whether the caller has its answer.
    pub fn is_finished(&self) -> (b: bool)
        ensures
            b == (self@.phase == Phase::Finished),
    {
        match self.phase {
            Phase::Finished => true,
            _ => false,
        }
    }

    /// Starts the next attempt.
    fn dispatch(&mut self) -> (action: Action)
        requires
            old(self).wf(),
            old(self)@.attempts <= old(self)@.policy().max_retries,
        ensures
            final(self).wf(),
            (final(self)@, action) == old(self)@.dispatch(),
    {
        match self.selector.select(&self.tried) {
            Ok(node) => {
                proof {
                    let m = old(self)@;
                    lemma_choice_is_unique(m.cursor, m.hosts(), m.tried, node as int, m.pick());
                }
                self.tried.push(node);
                self.attempts = self.attempts + 1;
                self.phase = Phase::Attempting(node);
                Action::Attempt { node, attempt: self.attempts }
            },
            Err(e) => {
                self.phase = Phase::Finished;
                Action::Fail(RequestError::Configuration(e))
            },
        }
    }

    /// Takes what happened and answers what to do next. `sample` is a random
    /// number from which the jitter of a backoff is taken.
    pub fn step(&mut self, event: Event, sample: u64) -> (action: Action)
        requires
            old(self).wf(),
        ensures
            final(self).wf(),
            final(self)@.wf(),
            (final(self)@, action) == old(self)@.next(event, sample),
    {
        let mut phase = Phase::Finished;
        core::mem::swap(&mut self.phase, &mut phase);
        match (phase, event) {
            (Phase::Finished, _) => Action::Nothing,
            (_, Event::Cancelled) => Action::Fail(RequestError::Cancelled),
            (Phase::Idle, Event::Start) => {
                self.phase = Phase::Idle;
                self.dispatch()
            },
            (Phase::Attempting(node), Event::AttemptDone { outcome, body_written }) => {
                self.dirty = self.dirty || body_written;
                match &outcome {
                    Outcome::Response(Qos::Success) => {
                        return Action::Succeed;
                    },
                    _ => {},
                }
                let policy = self.state.policy();
                match policy.should_retry(self.attempts, self.idempotent, &outcome, sample) {
                    RetryDecision::Retry(delay) => {
                        self.phase = Phase::Waiting(outcome);
                        Action::Sleep(delay)
                    },
                    RetryDecision::GiveUp => {
                        if policy.is_retryable(self.idempotent, &outcome) {
                            Action::Fail(
                                RequestError::RetryBudgetExhausted {
                                    attempts: self.attempts,
                                    last: outcome,
                                },
                            )
                        } else {
                            Action::Fail(RequestError::Failed(outcome))
                        }
                    },
                }
            },
            (Phase::Waiting(failure), Event::DelayElapsed) => {
                if self.dirty {
                    self.phase = Phase::Resetting(failure);
                    Action::ResetBody
                } else {
                    self.phase = Phase::Waiting(failure);
                    self.dispatch()
                }
            },
            (Phase::Resetting(failure), Event::ResetDone(true)) => {
                self.dirty = false;
                self.phase = Phase::Waiting(failure);
                self.dispatch()
            },
            (Phase::Resetting(failure), Event::ResetDone(false)) => Action::Fail(
                RequestError::Failed(failure),
            ),
            (before, _) => {
                self.phase = before;
                Action::Nothing
            },
        }
    }
}

/// Where a request stands after a sequence of events, each with the sample
/// that came with it.
pub open spec fn run(start: RequestModel, events: Seq<(Event, u64)>) -> RequestModel
    decreases events.len(),
{
    if events.len() == 0 {
        start
    } else {
        run(start, events.drop_last()).next(events.last().0, events.last().1).0
    }
}

/// The host picked for the next attempt is in the list, and it is the one
/// that the selection rule names.
pub proof fn lemma_pick_is_chosen(m: RequestModel)
    requires
        0 <= m.cursor < m.hosts(),
    ensures
        0 <= m.pick() < m.hosts(),
        chosen(m.cursor, m.hosts(), m.tried, m.pick()),
{
    lemma_choice_exists(m.cursor, m.hosts(), m.tried);
    let i = choose|i: int| 0 <= i < m.hosts() && chosen(m.cursor, m.hosts(), m.tried, i);
    lemma_choice_is_unique(m.cursor, m.hosts(), m.tried, i, m.pick());
}

/// Whatever happens, a request stays as it should be: in particular it never
/// starts more attempts than one plus the retries that the policy allows.
pub proof fn lemma_next_keeps_wf(m: RequestModel, event: Event, sample: u64)
    requires
        m.wf(),
    ensures
        m.next(event, sample).0.wf(),
        m.next(event, sample).0.attempts <= m.policy().max_retries + 1,
        m.next(event, sample).0.snapshot == m.snapshot,
        m.next(event, sample).0.idempotent == m.idempotent,
{
    if m.hosts() > 0 {
        lemma_pick_is_chosen(m);
        let clean = RequestModel { dirty: false, ..m };
        lemma_pick_is_chosen(clean);
    }
}

/// A request in flight keeps the client state that it started with, and
/// with it its candidate list, whatever happens meanwhile.
pub proof fn lemma_run_keeps_snapshot(start: RequestModel, events: Seq<(Event, u64)>)
    requires
        start.wf(),
    ensures
        run(start, events).wf(),
        run(start, events).snapshot == start.snapshot,
        run(start, events).snapshot.candidates() == start.snapshot.candidates(),
        run(start, events).attempts <= start.policy().max_retries + 1,
    decreases events.len(),
{
    if events.len() > 0 {
        lemma_run_keeps_snapshot(start, events.drop_last());
        lemma_next_keeps_wf(run(start, events.drop_last()), events.last().0, events.last().1);
    }
}

/// No host is tried twice while another is left: where a step starts an
/// attempt and the request has not tried every host, the attempt goes to a
/// host that it has not tried.
pub proof fn lemma_attempt_goes_to_untried_host(m: RequestModel, event: Event, sample: u64)
    requires
        m.wf(),
        !all_tried(m.hosts(), m.tried),
        m.next(event, sample).1 is Attempt,
    ensures
        !visited(m.tried, m.next(event, sample).1->node as int),
        m.next(event, sample).1->node < m.hosts(),
        m.next(event, sample).0.tried == m.tried.push(m.next(event, sample).1->node),
{
    if m.hosts() > 0 {
        lemma_pick_is_chosen(m);
        let clean = RequestModel { dirty: false, ..m };
        lemma_pick_is_chosen(clean);
        assert(clean.pick() == m.pick());
    }
}

/// Whether each host in `tried` was new to the request when it was tried,
/// unless the request had tried every host by then.
pub open spec fn fresh_while_possible(hosts: int, tried: Seq<usize>) -> bool {
    forall|j: int|
        0 <= j < tried.len() && !all_tried(hosts, #[trigger] tried.take(j)) ==> !visited(
            tried.take(j),
            tried[j] as int,
        )
}

/// A step keeps the hosts tried fresh while possible.
proof fn lemma_next_keeps_fresh(m: RequestModel, event: Event, sample: u64)
    requires
        m.wf(),
        fresh_while_possible(m.hosts(), m.tried),
    ensures
        fresh_while_possible(m.hosts(), m.next(event, sample).0.tried),
{
    let after = m.next(event, sample).0;
    if after.tried != m.tried {
        lemma_attempt_goes_to_untried_host_or_all_tried(m, event, sample);
        let node = m.next(event, sample).1->node;
        assert forall|j: int|
            0 <= j < after.tried.len() && !all_tried(
                m.hosts(),
                #[trigger] after.tried.take(j),
            ) implies !visited(after.tried.take(j), after.tried[j] as int) by {
            if j < m.tried.len() {
                assert(after.tried.take(j) =~= m.tried.take(j));
            } else {
                assert(after.tried.take(j) =~= m.tried);
            }
        }
    }
}

/// Where a step changes the hosts tried, it starts an attempt at a host that
/// is appended to them, and that host is new unless every host was tried.
proof fn lemma_attempt_goes_to_untried_host_or_all_tried(
    m: RequestModel,
    event: Event,
    sample: u64,
)
    requires
        m.wf(),
        m.next(event, sample).0.tried != m.tried,
    ensures
        m.next(event, sample).1 is Attempt,
        m.next(event, sample).0.tried == m.tried.push(m.next(event, sample).1->node),
        !all_tried(m.hosts(), m.tried) ==> !visited(
            m.tried,
            m.next(event, sample).1->node as int,
        ),
{
    if !all_tried(m.hosts(), m.tried) {
        lemma_attempt_goes_to_untried_host(m, event, sample);
    }
}

/// Over a whole request no host is tried twice while another is left: each
/// host tried was new to the request when it was tried, unless the request
/// had tried every host by then.
pub proof fn lemma_hosts_are_fresh_while_possible(start: RequestModel, events: Seq<(Event, u64)>)
    requires
        start.wf(),
        fresh_while_possible(start.hosts(), start.tried),
    ensures
        fresh_while_possible(start.hosts(), run(start, events).tried),
    decreases events.len(),
{
    if events.len() > 0 {
        lemma_hosts_are_fresh_while_possible(start, events.drop_last());
        lemma_run_keeps_snapshot(start, events.drop_last());
        lemma_next_keeps_fresh(run(start, events.drop_last()), events.last().0, events.last().1);
    }
}

/// A caller gets one answer: the step that hands out success or an error is
/// the step that finishes the request, and a finished request takes no event
/// and answers nothing more.
pub proof fn lemma_one_terminal_outcome(m: RequestModel, event: Event, sample: u64)
    ensures
        m.phase == Phase::Finished ==> m.next(event, sample) == (m, Action::Nothing),
        (m.next(event, sample).1 is Succeed || m.next(event, sample).1 is Fail) <==> (m.phase
            != Phase::Finished && m.next(event, sample).0.phase == Phase::Finished),
{
}

/// A body that refuses to rewind ends the request: no attempt follows, and
/// the caller gets the failure that asked for the retry, as it was.
pub proof fn lemma_refused_reset_ends_request(m: RequestModel, sample: u64)
    requires
        m.phase is Resetting,
    ensures
        m.next(Event::ResetDone(false), sample).0.phase == Phase::Finished,
        m.next(Event::ResetDone(false), sample).0.attempts == m.attempts,
        m.next(Event::ResetDone(false), sample).1 == Action::Fail(
            RequestError::Failed(m.phase->Resetting_0),
        ),
{
}

/// Whether every rewind in `events` is refused and every attempt in it
/// writes to the body.
pub open spec fn never_rewinds(events: Seq<(Event, u64)>) -> bool {
    forall|i: int|
        0 <= i < events.len() ==> match (#[trigger] events[i]).0 {
            Event::ResetDone(ok) => !ok,
            Event::AttemptDone { body_written, .. } => body_written,
            _ => true,
        }
}

/// A request whose body is written to in each attempt and never rewinds
/// makes at most one physical attempt.
pub proof fn lemma_unresettable_body_is_sent_once(start: RequestModel, events: Seq<(Event, u64)>)
    requires
        start.wf(),
        start.phase == Phase::Idle,
        never_rewinds(events),
    ensures
        run(start, events).attempts <= 1,
        run(start, events).phase is Waiting ==> run(start, events).dirty,
        run(start, events).phase is Idle ==> run(start, events).attempts == 0,
    decreases events.len(),
{
    if events.len() > 0 {
        let before = events.drop_last();
        assert(never_rewinds(before)) by {
            assert forall|i: int| 0 <= i < before.len() implies match (#[trigger] before[i]).0 {
                Event::ResetDone(ok) => !ok,
                Event::AttemptDone { body_written, .. } => body_written,
                _ => true,
            } by {
                assert(before[i] == events[i]);
            }
        }
        lemma_unresettable_body_is_sent_once(start, before);
        lemma_run_keeps_snapshot(start, before);
        let m = run(start, before);
        let last = events[events.len() - 1];
        assert(last == events.last());
        if m.hosts() > 0 {
            lemma_pick_is_chosen(m);
        }
    }
}

/// A request that is as it should be has a model that is.
pub proof fn lemma_wf_request_has_wf_model(r: Request)
    requires
        r.wf(),
    ensures
        r@.wf(),
{
}

} // verus!
