use vstd::prelude::*;

use crate::support::time::{duration_between, duration_secs, instant_elapsed, instant_now, nanos_of};

verus! {

/// The three states of a circuit breaker.
#[derive(Debug, Clone, Copy, PartialEq, Eq, Structural)]
pub enum State {
    Closed,
    Open,
    HalfOpen,
}

/// The state that a stored state byte stands for: 1 is open, 2 half-open,
/// and every other value closed.
pub open spec fn state_of_byte(v: u8) -> State {
    if v == 1 {
        State::Open
    } else if v == 2 {
        State::HalfOpen
    } else {
        State::Closed
    }
}

impl From<u8> for State {
    fn from(v: u8) -> (r: State) {
        if v == 1 {
            State::Open
        } else if v == 2 {
            State::HalfOpen
        } else {
            State::Closed
        }
    }
}

impl vstd::std_specs::convert::FromSpecImpl<u8> for State {
    open spec fn obeys_from_spec() -> bool {
        true
    }

    open spec fn from_spec(v: u8) -> State {
        state_of_byte(v)
    }
}

/// A snapshot of a circuit breaker's state and counters.
#[derive(Debug, Clone)]
pub struct CircuitStats {
    pub state: State,
    pub failure_count: u64,
    pub success_count: u64,
    pub last_failure: Option<std::time::Instant>,
}

/// Why a call through the circuit breaker failed.
#[derive(Debug, Clone)]
pub enum CircuitBreakerError {
    /// The breaker refused the call.
    CircuitOpen,
    /// The call itself failed.
    UpstreamError(String),
}

/// The abstract state of a circuit breaker.
pub struct BreakerView {
    pub state: State,
    pub failure_count: u64,
    pub success_count: u64,
    /// The moment of the last failure recorded since the last reset.
    pub last_failure: Option<std::time::Instant>,
    /// Calls still allowed through while half-open.
    pub half_open_remaining: u64,
    pub failure_threshold: u64,
    pub recovery_timeout_secs: u64,
    pub half_open_max: u64,
}

/// An open breaker whose last failure lies `elapsed_secs` back turns
/// half-open, with its full allowance of probe calls, once the recovery
/// timeout has passed; any other breaker stays as it is.
pub open spec fn recovered(v: BreakerView, elapsed_secs: u64) -> BreakerView {
    if v.state == State::Open && v.last_failure is Some && elapsed_secs >= v.recovery_timeout_secs {
        BreakerView { state: State::HalfOpen, half_open_remaining: v.half_open_max, ..v }
    } else {
        v
    }
}

/// The whole seconds from `earlier` to `later`: the span that
/// `Instant::duration_since` gives, in nanoseconds divided by a billion.
pub open spec fn secs_between(later: std::time::Instant, earlier: std::time::Instant) -> int {
    nanos_of(duration_between(later, earlier)) as int / 1_000_000_000
}

/// The whole seconds since the breaker's last failure when the clock reads
/// `now`; none when no failure is on record.
pub open spec fn secs_since_failure(v: BreakerView, now: std::time::Instant) -> u64 {
    match v.last_failure {
        Some(t) => secs_between(now, t) as u64,
        None => 0,
    }
}

/// Whether the breaker lets a call through, and its state afterwards: an open
/// breaker refuses; a half-open one lets a call through while probe calls
/// remain, using one up; a closed one lets every call through.
pub open spec fn admission(v: BreakerView) -> (bool, BreakerView) {
    match v.state {
        State::Open => (false, v),
        State::HalfOpen => {
            if v.half_open_remaining == 0 {
                (false, v)
            } else {
                (true, BreakerView { half_open_remaining: (v.half_open_remaining - 1) as u64, ..v })
            }
        },
        State::Closed => (true, v),
    }
}

/// The breaker after a success: the success is counted; a half-open breaker
/// closes and forgets its failures, a closed one forgets its failures.
pub open spec fn succeeded(v: BreakerView) -> BreakerView {
    let successes = if v.success_count == u64::MAX { 0u64 } else { (v.success_count + 1) as u64 };
    match v.state {
        State::HalfOpen => BreakerView { state: State::Closed, failure_count: 0, success_count: successes, ..v },
        State::Closed => BreakerView { failure_count: 0, success_count: successes, ..v },
        State::Open => BreakerView { success_count: successes, ..v },
    }
}

/// The breaker after a failure at moment `at`: the failure is counted and
/// its moment remembered; a closed breaker opens once the failures reach the
/// threshold, a half-open one opens at once.
pub open spec fn failed(v: BreakerView, at: std::time::Instant) -> BreakerView {
    let failures = if v.failure_count == u64::MAX { 0u64 } else { (v.failure_count + 1) as u64 };
    let counted = BreakerView { failure_count: failures, last_failure: Some(at), ..v };
    match v.state {
        State::Closed => if failures >= v.failure_threshold {
            BreakerView { state: State::Open, ..counted }
        } else {
            counted
        },
        State::HalfOpen => BreakerView { state: State::Open, ..counted },
        State::Open => counted,
    }
}

/// The breaker after a manual reset: closed, with no counts and no failure
/// on record.
pub open spec fn reset_view(v: BreakerView) -> BreakerView {
    BreakerView { state: State::Closed, failure_count: 0, success_count: 0, last_failure: None, ..v }
}

/// Guards calls to an upstream: after enough failures it refuses calls, and
/// after a recovery timeout it lets a few probe calls through.
pub struct CircuitBreaker {
    state: State,
    failure_count: u64,
    success_count: u64,
    last_failure: Option<std::time::Instant>,
    failure_threshold: u64,
    recovery_timeout_secs: u64,
    half_open_max: u64,
    half_open_remaining: u64,
}

impl View for CircuitBreaker {
    type V = BreakerView;

    closed spec fn view(&self) -> BreakerView {
        BreakerView {
            state: self.state,
            failure_count: self.failure_count,
            success_count: self.success_count,
            last_failure: self.last_failure,
            half_open_remaining: self.half_open_remaining,
            failure_threshold: self.failure_threshold,
            recovery_timeout_secs: self.recovery_timeout_secs,
            half_open_max: self.half_open_max,
        }
    }
}

impl CircuitBreaker {
    pub fn new(failure_threshold: u64, recovery_timeout_secs: u64, half_open_max: u64) -> (r: Self)
        ensures
            r@ == (BreakerView {
                state: State::Closed,
                failure_count: 0,
                success_count: 0,
                last_failure: None,
                half_open_remaining: half_open_max,
                failure_threshold,
                recovery_timeout_secs,
                half_open_max,
            }),
    {
        CircuitBreaker {
            state: State::Closed,
            failure_count: 0,
            success_count: 0,
            last_failure: None,
            failure_threshold,
            recovery_timeout_secs,
            half_open_max,
            half_open_remaining: half_open_max,
        }
    }

    pub fn state(&self) -> (r: State)
        ensures
            r == self@.state,
    {
        self.state
    }

    pub fn stats(&self) -> (r: CircuitStats)
        ensures
            r.state == self@.state,
            r.failure_count == self@.failure_count,
            r.success_count == self@.success_count,
            r.last_failure == self@.last_failure,
    {
        CircuitStats {
            state: self.state,
            failure_count: self.failure_count,
            success_count: self.success_count,
            last_failure: self.last_failure,
        }
    }

    /// Turns an open breaker half-open when its last failure lies
    /// `elapsed_secs` seconds back and that reaches the recovery timeout.
    pub fn half_open_after(&mut self, elapsed_secs: u64)
        ensures
            final(self)@ == recovered(old(self)@, elapsed_secs),
    {
        if self.state == State::Open && self.last_failure.is_some() && elapsed_secs >= self.recovery_timeout_secs {
            self.state = State::HalfOpen;
            self.half_open_remaining = self.half_open_max;
        }
    }

    /// Turns an open breaker half-open once the recovery timeout has passed
    /// since its last failure, measured on the clock from the moment of that
    /// failure to now.
    pub fn maybe_trip_open_to_half_open(&mut self)
        ensures
            exists|now: std::time::Instant| final(self)@ == recovered(old(self)@, #[trigger] secs_since_failure(old(self)@, now)),
            exists|elapsed: u64| final(self)@ == recovered(old(self)@, elapsed),
    {
        if self.state != State::Open {
            let ghost w: std::time::Instant = vstd::pervasive::arbitrary();
            assert(self@ == recovered(self@, secs_since_failure(self@, w)));
            assert(self@ == recovered(self@, 0));
            return;
        }
        match self.last_failure {
            Some(t) => {
                let since = instant_elapsed(&t);
                let elapsed = duration_secs(&since);
                let ghost now = choose|now: std::time::Instant| since == duration_between(now, t);
                assert(elapsed == secs_since_failure(self@, now));
                self.half_open_after(elapsed);
                assert(self@ == recovered(old(self)@, secs_since_failure(old(self)@, now)));
            },
            None => {
                let ghost w: std::time::Instant = vstd::pervasive::arbitrary();
                assert(self@ == recovered(self@, secs_since_failure(self@, w)));
                assert(self@ == recovered(self@, 0));
            },
        }
    }

    /// Decides whether a call may go through now, and uses up a probe call
    /// when half-open.
    pub fn allow_request(&mut self) -> (r: Result<(), CircuitBreakerError>)
        ensures
            final(self)@ == admission(old(self)@).1,
            admission(old(self)@).0 ==> r is Ok,
            !admission(old(self)@).0 ==> r matches Err(CircuitBreakerError::CircuitOpen),
    {
        match self.state {
            State::Open => Err(CircuitBreakerError::CircuitOpen),
            State::HalfOpen => {
                if self.half_open_remaining == 0 {
                    Err(CircuitBreakerError::CircuitOpen)
                } else {
                    self.half_open_remaining = self.half_open_remaining - 1;
                    Ok(())
                }
            },
            State::Closed => Ok(()),
        }
    }

    /// Runs `f` through the breaker: it is refused while the breaker is open
    /// (after giving an open breaker the chance to turn half-open), and its
    /// outcome is recorded as a success or a failure.
    pub fn call<T, F: FnOnce() -> Result<T, CircuitBreakerError>>(&mut self, f: F) -> (r: Result<T, CircuitBreakerError>)
        requires
            f.requires(()),
        ensures
            exists|now: std::time::Instant| {
                let (admitted, v) = admission(recovered(old(self)@, #[trigger] secs_since_failure(old(self)@, now)));
                &&& !admitted ==> (r matches Err(CircuitBreakerError::CircuitOpen) && final(self)@ == v)
                &&& admitted ==> f.ensures((), r)
                &&& admitted && r is Ok ==> final(self)@ == succeeded(v)
                &&& admitted && r is Err ==> final(self)@.last_failure is Some
                    && final(self)@ == failed(v, final(self)@.last_failure->Some_0)
            },
    {
        self.maybe_trip_open_to_half_open();
        let ghost mid = self@;
        let ghost now = choose|now: std::time::Instant| mid == recovered(old(self)@, secs_since_failure(old(self)@, now));
        let ghost elapsed = secs_since_failure(old(self)@, now);
        match self.allow_request() {
            Err(e) => {
                assert(recovered(old(self)@, elapsed) == mid);
                return Err(e);
            },
            Ok(()) => {},
        }
        let result = f();
        match result {
            Ok(v) => {
                self.on_success();
                assert(recovered(old(self)@, elapsed) == mid);
                Ok(v)
            },
            Err(e) => {
                self.on_failure();
                assert(recovered(old(self)@, elapsed) == mid);
                Err(e)
            },
        }
    }

    /// Records a success.
    pub fn on_success(&mut self)
        ensures
            final(self)@ == succeeded(old(self)@),
    {
        self.success_count = self.success_count.wrapping_add(1);
        match self.state {
            State::HalfOpen => {
                self.state = State::Closed;
                self.failure_count = 0;
            },
            State::Closed => {
                self.failure_count = 0;
            },
            State::Open => {},
        }
    }

    /// Records a failure, and the moment it happened.
    pub fn on_failure(&mut self)
        ensures
            final(self)@.last_failure is Some,
            final(self)@ == failed(old(self)@, final(self)@.last_failure->Some_0),
    {
        self.failure_count = self.failure_count.wrapping_add(1);
        self.last_failure = Some(instant_now());
        let failures = self.failure_count;
        match self.state {
            State::Closed => {
                if failures >= self.failure_threshold {
                    self.state = State::Open;
                }
            },
            State::HalfOpen => {
                self.state = State::Open;
            },
            State::Open => {},
        }
    }

    /// Closes the breaker and clears its counts and its record of failures.
    pub fn reset(&mut self)
        ensures
            final(self)@ == reset_view(old(self)@),
    {
        self.state = State::Closed;
        self.failure_count = 0;
        self.success_count = 0;
        self.last_failure = None;
    }
}

/// An open breaker has a failure on record.
pub open spec fn breaker_consistent(v: BreakerView) -> bool {
    v.state == State::Open ==> v.last_failure is Some
}

/// Every transition keeps an open breaker's failure on record, so the
/// recovery timeout of an open breaker always counts from a real failure.
pub proof fn lemma_transitions_keep_consistent(v: BreakerView, elapsed_secs: u64, at: std::time::Instant)
    requires
        breaker_consistent(v),
    ensures
        breaker_consistent(recovered(v, elapsed_secs)),
        breaker_consistent(admission(v).1),
        breaker_consistent(succeeded(v)),
        breaker_consistent(failed(v, at)),
        breaker_consistent(reset_view(v)),
{
}

/// Letting a call through, refusing it, turning half-open and recording a
/// success all keep the moment of the last failure as it was.
pub proof fn lemma_last_failure_kept(v: BreakerView, elapsed_secs: u64)
    ensures
        recovered(v, elapsed_secs).last_failure == v.last_failure,
        admission(v).1.last_failure == v.last_failure,
        succeeded(v).last_failure == v.last_failure,
{
}

/// An open breaker refuses every call and is left as it was.
pub proof fn lemma_open_refuses(v: BreakerView)
    requires
        v.state == State::Open,
    ensures
        admission(v) == (false, v),
{
}

/// A closed breaker lets every call through and is left as it was.
pub proof fn lemma_closed_admits(v: BreakerView)
    requires
        v.state == State::Closed,
    ensures
        admission(v) == (true, v),
{
}

/// A half-open breaker closes on a success and opens again on a failure.
pub proof fn lemma_half_open_outcomes(v: BreakerView, at: std::time::Instant)
    requires
        v.state == State::HalfOpen,
    ensures
        succeeded(v).state == State::Closed,
        succeeded(v).failure_count == 0,
        failed(v, at).state == State::Open,
{
}

/// The breaker after `n` failures in a row, each at moment `at`.
pub open spec fn failures_in_a_row(v: BreakerView, n: nat, at: std::time::Instant) -> BreakerView
    decreases n,
{
    if n == 0 {
        v
    } else {
        failed(failures_in_a_row(v, (n - 1) as nat, at), at)
    }
}

/// From a closed breaker with no failures counted, `n` failures in a row
/// (at least one) leave it open exactly when `n` reaches the failure
/// threshold, and counted `n` times.
pub proof fn lemma_opens_at_threshold(v: BreakerView, n: nat, at: std::time::Instant)
    requires
        v.state == State::Closed,
        v.failure_count == 0,
        1 <= n < u64::MAX,
    ensures
        failures_in_a_row(v, n, at).failure_count == n,
        failures_in_a_row(v, n, at).state == State::Open <==> n >= v.failure_threshold,
        failures_in_a_row(v, n, at).state != State::HalfOpen,
        failures_in_a_row(v, n, at).failure_threshold == v.failure_threshold,
    decreases n,
{
    let prev = failures_in_a_row(v, (n - 1) as nat, at);
    assert(failures_in_a_row(v, n, at) == failed(prev, at));
    if n > 1 {
        lemma_opens_at_threshold(v, (n - 1) as nat, at);
    } else {
        assert(prev == v);
    }
}

/// Recovery goes by the clock from the last failure. For an open breaker
/// whose last failure was at `t`, at a clock reading `now` at least the
/// recovery timeout after `t` the breaker turns half-open with its full
/// allowance of probes, lets a probe through when it has any, and closes, with
/// its failures forgotten, when that probe succeeds. At a reading less than
/// the timeout after `t` it stays open and refuses every call.
pub proof fn lemma_recovery_by_the_clock(v: BreakerView, t: std::time::Instant, now: std::time::Instant)
    requires
        v.state == State::Open,
        v.last_failure == Some(t),
        nanos_of(duration_between(now, t)) < (u64::MAX as int + 1) * 1_000_000_000,
    ensures
        ({
            let elapsed_nanos = nanos_of(duration_between(now, t)) as int;
            let h = recovered(v, secs_since_failure(v, now));
            &&& elapsed_nanos >= v.recovery_timeout_secs * 1_000_000_000 ==> {
                &&& h.state == State::HalfOpen
                &&& h.half_open_remaining == v.half_open_max
                &&& h.last_failure == Some(t)
                &&& v.half_open_max > 0 ==> {
                    let (admitted, probing) = admission(h);
                    &&& admitted
                    &&& succeeded(probing).state == State::Closed
                    &&& succeeded(probing).failure_count == 0
                }
            }
            &&& elapsed_nanos < v.recovery_timeout_secs * 1_000_000_000 ==> {
                &&& h == v
                &&& !admission(h).0
            }
        }),
{
    let n = nanos_of(duration_between(now, t)) as int;
    let secs = n / 1_000_000_000;
    assert(0 <= secs <= u64::MAX) by (nonlinear_arith)
        requires
            0 <= n < (u64::MAX as int + 1) * 1_000_000_000,
            secs == n / 1_000_000_000,
    ;
    assert(secs >= v.recovery_timeout_secs <==> n >= v.recovery_timeout_secs * 1_000_000_000) by (nonlinear_arith)
        requires
            n >= 0,
            secs == n / 1_000_000_000,
    ;
}

} // verus!
