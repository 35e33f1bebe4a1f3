//! Circuit breaker that halts trading on high latency or on consecutive
//! failures. The breaker decides; whoever drives it sends the shutdown
//! signal when a call reports that the breaker has just tripped.

use vstd::prelude::*;

verus! {

/// Circuit breaker state.
#[derive(Debug, Clone, Copy, PartialEq, Eq, Structural)]
pub enum CircuitBreakerState {
    /// Normal operation.
    Normal,
    /// Tripped (halted).
    Tripped,
    /// Resetting.
    Resetting,
}

/// The breaker as a mathematical value.
pub struct BreakerModel {
    pub state: CircuitBreakerState,
    pub max_latency_ms: u64,
    pub max_failures: u32,
    pub failure_count: nat,
    pub last_latency: Option<u64>,
}

/// The breaker after it trips (a tripped breaker stays as it is).
pub open spec fn spec_trip(m: BreakerModel) -> BreakerModel {
    BreakerModel { state: CircuitBreakerState::Tripped, ..m }
}

/// The breaker after a latency measurement of `latency_ms`.
pub open spec fn spec_after_latency(m: BreakerModel, latency_ms: u64) -> BreakerModel {
    let recorded = BreakerModel { last_latency: Some(latency_ms), ..m };
    if latency_ms > m.max_latency_ms {
        spec_trip(recorded)
    } else {
        recorded
    }
}

/// Whether a latency measurement sends the shutdown signal: it must exceed
/// the limit while the breaker is not already tripped.
pub open spec fn spec_latency_signals(m: BreakerModel, latency_ms: u64) -> bool {
    latency_ms > m.max_latency_ms && m.state != CircuitBreakerState::Tripped
}

/// The breaker after one more failure.
pub open spec fn spec_after_failure(m: BreakerModel) -> BreakerModel {
    let counted = BreakerModel { failure_count: m.failure_count + 1, ..m };
    if counted.failure_count >= m.max_failures {
        spec_trip(counted)
    } else {
        counted
    }
}

/// Whether a failure sends the shutdown signal: the count reaches the limit
/// while the breaker is not already tripped.
pub open spec fn spec_failure_signals(m: BreakerModel) -> bool {
    m.failure_count + 1 >= m.max_failures && m.state != CircuitBreakerState::Tripped
}

/// The breaker after `k` consecutive failures.
pub open spec fn spec_after_failures(m: BreakerModel, k: nat) -> BreakerModel
    decreases k,
{
    if k == 0 {
        m
    } else {
        spec_after_failure(spec_after_failures(m, (k - 1) as nat))
    }
}

/// Circuit breaker for detecting high latency and consecutive failures.
pub struct CircuitBreaker {
    state: CircuitBreakerState,
    max_latency_ms: u64,
    max_failures: u32,
    failure_count: u32,
    last_latency: Option<u64>,
}

impl View for CircuitBreaker {
    type V = BreakerModel;

    closed spec fn view(&self) -> BreakerModel {
        BreakerModel {
            state: self.state,
            max_latency_ms: self.max_latency_ms,
            max_failures: self.max_failures,
            failure_count: self.failure_count as nat,
            last_latency: self.last_latency,
        }
    }
}

impl CircuitBreaker {
    /// A breaker in normal operation with no failure and no latency recorded.
    pub fn new(max_latency_ms: u64, max_failures: u32) -> (b: Self)
        ensures
            b@ == (BreakerModel {
                state: CircuitBreakerState::Normal,
                max_latency_ms,
                max_failures,
                failure_count: 0,
                last_latency: None,
            }),
    {
        CircuitBreaker {
            state: CircuitBreakerState::Normal,
            max_latency_ms,
            max_failures,
            failure_count: 0,
            last_latency: None,
        }
    }

    /// Whether the breaker is tripped.
    pub fn is_tripped(&self) -> (b: bool)
        ensures
            b == (self@.state == CircuitBreakerState::Tripped),
    {
        self.state == CircuitBreakerState::Tripped
    }

    /// Current state.
    pub fn state(&self) -> (s: CircuitBreakerState)
        ensures
            s == self@.state,
    {
        self.state
    }

    /// Trips the breaker; reports whether it was not tripped before, that
    /// is, whether the shutdown signal is to be sent now.
    fn trip(&mut self) -> (signal: bool)
        ensures
            final(self)@ == spec_trip(old(self)@),
            signal == (old(self)@.state != CircuitBreakerState::Tripped),
    {
        if self.state != CircuitBreakerState::Tripped {
            self.state = CircuitBreakerState::Tripped;
            true
        } else {
            false
        }
    }

    /// Records a latency measurement; a measurement above the limit trips
    /// the breaker. Returns whether the shutdown signal is to be sent.
    pub fn record_latency(&mut self, latency_ms: u64) -> (signal: bool)
        ensures
            final(self)@ == spec_after_latency(old(self)@, latency_ms),
            signal == spec_latency_signals(old(self)@, latency_ms),
    {
        self.last_latency = Some(latency_ms);
        if latency_ms > self.max_latency_ms {
            self.trip()
        } else {
            false
        }
    }

    /// Records a failure; reaching the limit of consecutive failures trips
    /// the breaker. Returns whether the shutdown signal is to be sent.
    pub fn record_failure(&mut self) -> (signal: bool)
        requires
            old(self)@.failure_count < u32::MAX,
        ensures
            final(self)@ == spec_after_failure(old(self)@),
            signal == spec_failure_signals(old(self)@),
    {
        self.failure_count = self.failure_count + 1;
        if self.failure_count >= self.max_failures {
            self.trip()
        } else {
            false
        }
    }

    /// Records a success, which clears the count of consecutive failures.
    pub fn record_success(&mut self)
        ensures
            final(self)@ == (BreakerModel { failure_count: 0, ..old(self)@ }),
    {
        self.failure_count = 0;
    }

    /// Returns the breaker to normal operation with no failure counted.
    pub fn reset(&mut self)
        ensures
            final(self)@ == (BreakerModel {
                state: CircuitBreakerState::Normal,
                failure_count: 0,
                ..old(self)@
            }),
    {
        self.state = CircuitBreakerState::Normal;
        self.failure_count = 0;
    }

    /// Last latency measurement.
    pub fn last_latency(&self) -> (l: Option<u64>)
        ensures
            l == self@.last_latency,
    {
        self.last_latency
    }

    /// Number of consecutive failures counted.
    pub fn failure_count(&self) -> (n: u32)
        ensures
            n == self@.failure_count,
    {
        self.failure_count
    }

    /// The latency limit in milliseconds.
    pub fn max_latency_ms(&self) -> (l: u64)
        ensures
            l == self@.max_latency_ms,
    {
        self.max_latency_ms
    }

    /// The limit of consecutive failures.
    pub fn max_failures(&self) -> (n: u32)
        ensures
            n == self@.max_failures,
    {
        self.max_failures
    }
}

/// After `k` consecutive failures the count has grown by `k`, and the
/// breaker is tripped exactly when it was tripped before or when the count
/// reached the limit on one of those failures.
pub proof fn lemma_consecutive_failures(m: BreakerModel, k: nat)
    ensures
        spec_after_failures(m, k).failure_count == m.failure_count + k,
        spec_after_failures(m, k).max_failures == m.max_failures,
        spec_after_failures(m, k).max_latency_ms == m.max_latency_ms,
        spec_after_failures(m, k).last_latency == m.last_latency,
        (spec_after_failures(m, k).state == CircuitBreakerState::Tripped) <==> (
        m.state == CircuitBreakerState::Tripped || (k >= 1 && m.failure_count + k
            >= m.max_failures)),
        spec_after_failures(m, k).state != CircuitBreakerState::Tripped ==> spec_after_failures(
            m,
            k,
        ).state == m.state,
    decreases k,
{
    if k > 0 {
        lemma_consecutive_failures(m, (k - 1) as nat);
    }
}

/// A breaker that is not tripped and has just counted a success (or been
/// reset) trips on the `max_failures`-th consecutive failure and not before
/// (on the first one when the limit is zero).
pub proof fn lemma_trips_after_max_failures(m: BreakerModel, k: nat)
    requires
        m.state != CircuitBreakerState::Tripped,
        m.failure_count == 0,
    ensures
        (spec_after_failures(m, k).state == CircuitBreakerState::Tripped) <==> (k >= 1 && k
            >= m.max_failures),
{
    lemma_consecutive_failures(m, k);
}

/// A tripped breaker stays tripped, and sends no further shutdown signal,
/// whatever latency or failure it records next.
pub proof fn lemma_tripped_signals_once(m: BreakerModel, latency_ms: u64)
    requires
        m.state == CircuitBreakerState::Tripped,
    ensures
        !spec_latency_signals(m, latency_ms),
        !spec_failure_signals(m),
        spec_after_latency(m, latency_ms).state == CircuitBreakerState::Tripped,
        spec_after_failure(m).state == CircuitBreakerState::Tripped,
{
}

} // verus!
