//! The rules that decide whether a failed attempt is tried again, and after
//! what delay.

use crate::qos::Qos;
use crate::qos::QosModel;
use vstd::arithmetic::power2::lemma2_to64;
use vstd::arithmetic::power2::lemma_pow2_strictly_increases;
use vstd::arithmetic::power2::lemma_pow2_unfold;
use vstd::arithmetic::power2::pow2;
use vstd::prelude::*;

verus! {

/// Which requests count as safe to send twice.
#[derive(Clone, Copy, Debug, PartialEq, Eq, Structural)]
pub enum Idempotency {
    /// All of them.
    Always,
    /// Those whose HTTP method is idempotent.
    ByMethod,
    /// None of them.
    Never,
}

/// What a client does when the server throttles it or is unavailable.
#[derive(Clone, Copy, Debug, PartialEq, Eq, Structural)]
pub enum ServerQos {
    /// The client retries, on another node where it can.
    AutomaticRetry,
    /// The client hands the 429 or 503 on to its caller.
    Propagate429And503ToCaller,
}

/// What a client does with an error that the service reported.
#[derive(Clone, Copy, Debug, PartialEq, Eq, Structural)]
pub enum ServiceError {
    /// The error is wrapped into a new, generic one.
    WrapInNewError,
    /// The error is handed to the caller as the service reported it.
    PropagateToCaller,
}

/// The method of a request.
#[derive(Clone, Copy, Debug, PartialEq, Eq, Structural)]
pub enum Method {
    Get,
    Head,
    Put,
    Delete,
    Options,
    Trace,
    Post,
    Patch,
    Connect,
    /// Any method that has no name here.
    Other,
}

/// How the transport failed.
#[derive(Clone, Copy, Debug, PartialEq, Eq, Structural)]
pub enum TransportError {
    /// No connection could be made: the request never left.
    Connect,
    /// The deadline of the attempt passed.
    Timeout,
    /// The TLS handshake failed: the request never left.
    Tls,
    /// Reading or writing failed on an open connection.
    Io,
}

/// How one physical attempt ended.
#[derive(Clone, Debug, PartialEq, Eq)]
pub enum Outcome {
    /// The server answered.
    Response(Qos),
    /// The transport failed.
    Transport(TransportError),
}

/// An outcome as contracts see it.
pub enum OutcomeModel {
    Response(QosModel),
    Transport(TransportError),
}

impl View for Outcome {
    type V = OutcomeModel;

    open spec fn view(&self) -> OutcomeModel {
        match *self {
            Outcome::Response(q) => OutcomeModel::Response(q@),
            Outcome::Transport(e) => OutcomeModel::Transport(e),
        }
    }
}

/// What to do after a failed attempt.
#[derive(Clone, Copy, Debug, PartialEq, Eq, Structural)]
pub enum RetryDecision {
    /// Try again after so many milliseconds.
    Retry(u64),
    /// Report the failure.
    GiveUp,
}

/// The knobs of the retry rules.
#[derive(Clone, Copy, Debug, PartialEq, Eq, Structural)]
pub struct RetryPolicy {
    /// How many attempts may follow the first.
    pub max_retries: u32,
    /// The backoff before the first retry, in milliseconds.
    pub backoff_base: u64,
    /// The most that the exponential part of a backoff may be, in milliseconds.
    pub backoff_cap: u64,
    pub idempotency: Idempotency,
    pub server_qos: ServerQos,
}

/// The methods that may be repeated without changing what the server does.
pub open spec fn method_idempotent(m: Method) -> bool {
    m is Get || m is Head || m is Put || m is Delete || m is Options || m is Trace
}

/// Whether a request with method `m` counts as idempotent.
pub open spec fn idempotent_under(i: Idempotency, m: Method) -> bool {
    match i {
        Idempotency::Always => true,
        Idempotency::ByMethod => method_idempotent(m),
        Idempotency::Never => false,
    }
}

/// Whether the request may have reached the server before the transport
/// failed. A failed connect or handshake happens before any byte of the
/// request leaves; a timeout or an I/O failure can strike in mid-stream.
pub open spec fn ambiguous(e: TransportError) -> bool {
    e is Timeout || e is Io
}

/// Whether an outcome may be answered by another attempt at all.
///
/// A throttled or unavailable server is retried unless such answers are
/// handed on to the caller; a redirect is followed; a transport failure is
/// retried if the request is idempotent or cannot have reached the server.
/// Success and errors of the service are final.
pub open spec fn retryable(server_qos: ServerQos, idempotent: bool, outcome: OutcomeModel) -> bool {
    match outcome {
        OutcomeModel::Response(QosModel::Success) => false,
        OutcomeModel::Response(QosModel::ServiceError) => false,
        OutcomeModel::Response(QosModel::Throttle(_)) => server_qos is AutomaticRetry,
        OutcomeModel::Response(QosModel::Unavailable) => server_qos is AutomaticRetry,
        OutcomeModel::Response(QosModel::Redirect(_)) => true,
        OutcomeModel::Transport(e) => idempotent || !ambiguous(e),
    }
}

/// `base` doubled once for each attempt after the first.
pub open spec fn exponential(base: nat, attempt: nat) -> nat {
    base * pow2((attempt - 1) as nat)
}

/// The exponential part of a backoff: never more than `cap`.
pub open spec fn capped_exponential(base: nat, cap: nat, attempt: nat) -> nat {
    if exponential(base, attempt) <= cap {
        exponential(base, attempt)
    } else {
        cap
    }
}

/// The jitter that a random sample stands for: a number below `base`.
pub open spec fn jitter(base: nat, sample: nat) -> nat {
    if base == 0 {
        0
    } else {
        sample % base
    }
}

/// The backoff after attempt number `attempt`, counted from 1.
pub open spec fn backoff(base: nat, cap: nat, attempt: nat, sample: nat) -> nat {
    capped_exponential(base, cap, attempt) + jitter(base, sample)
}

/// A delay as 64 bits hold it.
pub open spec fn clamped(n: nat) -> u64 {
    if n > u64::MAX {
        u64::MAX
    } else {
        n as u64
    }
}

/// The delay before the retry of an outcome: what a throttling server asked
/// for, else the backoff.
pub open spec fn delay_after(policy: RetryPolicy, attempt: nat, outcome: OutcomeModel, sample: u64)
    -> u64 {
    match outcome {
        OutcomeModel::Response(QosModel::Throttle(Some(d))) => d,
        _ => clamped(
            backoff(policy.backoff_base as nat, policy.backoff_cap as nat, attempt, sample as nat),
        ),
    }
}

/// Whether the attempts are used up after attempt number `attempt`.
pub open spec fn exhausted(policy: RetryPolicy, attempt: nat) -> bool {
    attempt > policy.max_retries
}

/// The decision after attempt number `attempt`, counted from 1.
pub open spec fn decision(
    policy: RetryPolicy,
    attempt: nat,
    idempotent: bool,
    outcome: OutcomeModel,
    sample: u64,
) -> RetryDecision {
    if !retryable(policy.server_qos, idempotent, outcome) || exhausted(policy, attempt) {
        RetryDecision::GiveUp
    } else {
        RetryDecision::Retry(delay_after(policy, attempt, outcome, sample))
    }
}

impl Method {
    /// Whether the method may be repeated without changing what the server
    /// does.
    pub fn is_idempotent(&self) -> (b: bool)
        ensures
            b == method_idempotent(*self),
    {
        match self {
            Method::Get | Method::Head | Method::Put | Method::Delete | Method::Options
            | Method::Trace => true,
            Method::Post | Method::Patch | Method::Connect | Method::Other => false,
        }
    }
}

impl Idempotency {
    /// Whether a request with method `m` counts as idempotent.
    pub fn applies_to(&self, m: Method) -> (b: bool)
        ensures
            b == idempotent_under(*self, m),
    {
        match self {
            Idempotency::Always => true,
            Idempotency::ByMethod => m.is_idempotent(),
            Idempotency::Never => false,
        }
    }
}

impl TransportError {
    /// Whether the request may have reached the server before this failure.
    pub fn is_ambiguous(&self) -> (b: bool)
        ensures
            b == ambiguous(*self),
    {
        match self {
            TransportError::Timeout | TransportError::Io => true,
            TransportError::Connect | TransportError::Tls => false,
        }
    }
}

/// Doubling never shrinks: the exponential of a later attempt is no smaller.
pub proof fn lemma_exponential_grows(base: nat, a: nat, b: nat)
    requires
        1 <= a <= b,
    ensures
        exponential(base, a) <= exponential(base, b),
{
    if a < b {
        lemma_pow2_strictly_increases((a - 1) as nat, (b - 1) as nat);
    }
    let x = pow2((a - 1) as nat);
    let y = pow2((b - 1) as nat);
    assert(x <= y ==> base * x <= base * y) by (nonlinear_arith);
}

/// The exponential of the next attempt is twice that of this one.
pub proof fn lemma_exponential_doubles(base: nat, attempt: nat)
    requires
        attempt >= 1,
    ensures
        exponential(base, attempt + 1) == 2 * exponential(base, attempt),
        exponential(base, 1) == base,
{
    lemma_pow2_unfold(attempt);
    let x = pow2((attempt - 1) as nat);
    assert(base * (2 * x) == 2 * (base * x)) by (nonlinear_arith);
    lemma2_to64();
    assert(base * 1 == base) by (nonlinear_arith);
}

impl RetryPolicy {
    /// Whether an outcome may be answered by another attempt at all.
    pub fn is_retryable(&self, idempotent: bool, outcome: &Outcome) -> (b: bool)
        ensures
            b == retryable(self.server_qos, idempotent, outcome@),
    {
        match outcome {
            Outcome::Response(Qos::Success) => false,
            Outcome::Response(Qos::ServiceError) => false,
            Outcome::Response(Qos::Throttle(_)) | Outcome::Response(Qos::Unavailable) => {
                match self.server_qos {
                    ServerQos::AutomaticRetry => true,
                    ServerQos::Propagate429And503ToCaller => false,
                }
            },
            Outcome::Response(Qos::Redirect(_)) => true,
            Outcome::Transport(e) => idempotent || !e.is_ambiguous(),
        }
    }

    /// The exponential part of the backoff after attempt number `attempt`.
    fn capped(&self, attempt: u64) -> (d: u64)
        requires
            attempt >= 1,
        ensures
            d == capped_exponential(
                self.backoff_base as nat,
                self.backoff_cap as nat,
                attempt as nat,
            ),
    {
        let base: u64 = self.backoff_base;
        let cap: u64 = self.backoff_cap;
        proof {
            lemma_exponential_doubles(base as nat, 1);
            lemma_exponential_grows(base as nat, 1, attempt as nat);
        }
        if base == 0 {
            assert(exponential(0, attempt as nat) == 0) by (nonlinear_arith)
                requires
                    exponential(0, attempt as nat) == 0 * pow2((attempt - 1) as nat),
            ;
            return 0;
        }
        if base >= cap {
            return cap;
        }
        let mut d: u64 = base;
        let mut k: u64 = 1;
        while k < attempt
            invariant
                1 <= k <= attempt,
                base == self.backoff_base,
                cap == self.backoff_cap,
                d == exponential(base as nat, k as nat),
                d < cap,
            decreases attempt - k,
        {
            proof {
                lemma_exponential_doubles(base as nat, k as nat);
                lemma_exponential_grows(base as nat, (k + 1) as nat, attempt as nat);
            }
            if d > cap / 2 {
                return cap;
            }
            d = d * 2;
            k = k + 1;
            if d >= cap {
                return cap;
            }
        }
        d
    }

    /// The backoff after attempt number `attempt`, counted from 1: the base
    /// delay doubled once for each earlier attempt, capped, plus a jitter
    /// below the base delay that `sample` picks. The same sample gives the
    /// same delay.
    pub fn backoff_delay(&self, attempt: u64, sample: u64) -> (d: u64)
        requires
            attempt >= 1,
        ensures
            d == clamped(
                backoff(
                    self.backoff_base as nat,
                    self.backoff_cap as nat,
                    attempt as nat,
                    sample as nat,
                ),
            ),
    {
        let capped: u64 = self.capped(attempt);
        let extra: u64 = if self.backoff_base == 0 {
            0
        } else {
            sample % self.backoff_base
        };
        if capped > u64::MAX - extra {
            u64::MAX
        } else {
            capped + extra
        }
    }

    /// Decides what follows attempt number `attempt`, counted from 1, which
    /// ended with `outcome`.
    pub fn should_retry(
        &self,
        attempt: u64,
        idempotent: bool,
        outcome: &Outcome,
        sample: u64,
    ) -> (d: RetryDecision)
        requires
            attempt >= 1,
        ensures
            d == decision(*self, attempt as nat, idempotent, outcome@, sample),
    {
        if !self.is_retryable(idempotent, outcome) || attempt > self.max_retries as u64 {
            return RetryDecision::GiveUp;
        }
        match outcome {
            Outcome::Response(Qos::Throttle(Some(d))) => RetryDecision::Retry(*d),
            _ => RetryDecision::Retry(self.backoff_delay(attempt, sample)),
        }
    }
}

/// A backoff is the capped exponential plus less than the base delay.
pub proof fn lemma_backoff_bounds(base: nat, cap: nat, attempt: nat, sample: nat)
    requires
        attempt >= 1,
    ensures
        capped_exponential(base, cap, attempt) <= backoff(base, cap, attempt, sample),
        base > 0 ==> backoff(base, cap, attempt, sample) < capped_exponential(base, cap, attempt)
            + base,
        base == 0 ==> backoff(base, cap, attempt, sample) == 0,
        capped_exponential(base, cap, attempt) <= cap,
        capped_exponential(base, cap, attempt) <= exponential(base, attempt),
{
    if base == 0 {
        assert(0 * pow2((attempt - 1) as nat) == 0) by (nonlinear_arith);
    }
}

/// Where the sample adds no jitter, the backoff after attempt `attempt` lies
/// between 0 and the base delay doubled `attempt - 1` times, capped at the
/// maximum. The same holds where the capped delay alone fills 64 bits.
pub proof fn lemma_backoff_without_jitter(policy: RetryPolicy, attempt: nat, sample: u64)
    requires
        attempt >= 1,
        jitter(policy.backoff_base as nat, sample as nat) == 0 || capped_exponential(
            policy.backoff_base as nat,
            policy.backoff_cap as nat,
            attempt,
        ) == u64::MAX,
    ensures
        0 <= clamped(
            backoff(policy.backoff_base as nat, policy.backoff_cap as nat, attempt, sample as nat),
        ) <= policy.backoff_cap,
        clamped(
            backoff(policy.backoff_base as nat, policy.backoff_cap as nat, attempt, sample as nat),
        ) <= exponential(policy.backoff_base as nat, attempt),
        clamped(
            backoff(policy.backoff_base as nat, policy.backoff_cap as nat, attempt, sample as nat),
        ) == capped_exponential(policy.backoff_base as nat, policy.backoff_cap as nat, attempt),
{
}

/// Under the policy that goes by the method, a request with one of the
/// methods GET, HEAD, PUT and DELETE is tried again after a failed connect
/// while attempts are left.
pub proof fn lemma_by_method_retries_connect_failure(
    policy: RetryPolicy,
    m: Method,
    attempt: nat,
    sample: u64,
)
    requires
        policy.idempotency is ByMethod,
        m is Get || m is Head || m is Put || m is Delete,
        1 <= attempt <= policy.max_retries,
    ensures
        decision(
            policy,
            attempt,
            idempotent_under(policy.idempotency, m),
            OutcomeModel::Transport(TransportError::Connect),
            sample,
        ) is Retry,
{
}

/// Under the policy that goes by the method, a POST or PATCH request is not
/// tried again after a failure that may have struck in mid-stream.
pub proof fn lemma_by_method_gives_up_on_ambiguous_failure(
    policy: RetryPolicy,
    m: Method,
    e: TransportError,
    attempt: nat,
    sample: u64,
)
    requires
        policy.idempotency is ByMethod,
        m is Post || m is Patch,
        ambiguous(e),
    ensures
        decision(
            policy,
            attempt,
            idempotent_under(policy.idempotency, m),
            OutcomeModel::Transport(e),
            sample,
        ) is GiveUp,
{
}

} // verus!
