//! Circuit breaker guarding calls to the background service.
//!
//! After `failure_threshold` consecutive failures the circuit opens and calls
//! are refused; once `recovery_timeout` has passed one trial call is let
//! through (half-open); a success closes the circuit again.

use std::time::Instant;
use vstd::prelude::*;
use crate::clock::{instant_now, nanos_since};

verus! {

/// Nanoseconds in one second.
pub const NANOS_PER_SEC: u128 = 1_000_000_000;

/// State of a circuit breaker.
#[derive(Debug, Clone, Copy, PartialEq, Eq, Structural)]
pub enum CircuitState {
    /// Calls go through normally.
    Closed,
    /// Calls are blocked.
    Open,
    /// One call is allowed to test recovery.
    HalfOpen,
}

/// Circuit breaker for service calls.
#[derive(Debug)]
pub struct CircuitBreaker {
    state: CircuitState,
    failure_count: u32,
    failure_threshold: u32,
    opened_at: Option<Instant>,
    recovery_timeout_nanos: u128,
}

impl CircuitBreaker {
    /// Current state.
    pub closed spec fn spec_state(&self) -> CircuitState {
        self.state
    }

    /// Number of consecutive failures recorded.
    pub closed spec fn spec_failures(&self) -> nat {
        self.failure_count as nat
    }

    /// Failures needed to open the circuit.
    pub closed spec fn spec_threshold(&self) -> nat {
        self.failure_threshold as nat
    }

    /// When the circuit last opened, if it is recorded.
    pub closed spec fn spec_opened_at(&self) -> Option<Instant> {
        self.opened_at
    }

    /// Whether an opening instant is recorded.
    pub open spec fn spec_has_opened_at(&self) -> bool {
        self.spec_opened_at() is Some
    }

    /// How long the circuit stays open before a trial call, in nanoseconds.
    pub closed spec fn spec_recovery_nanos(&self) -> nat {
        self.recovery_timeout_nanos as nat
    }

    /// The breaker's invariant: the circuit is closed exactly while fewer
    /// failures than the threshold have been seen, and an open circuit
    /// knows when it opened.
    pub open spec fn wf(&self) -> bool {
        &&& self.spec_threshold() > 0
        &&& (self.spec_state() == CircuitState::Closed <==> self.spec_failures()
            < self.spec_threshold())
        &&& (self.spec_state() == CircuitState::Open ==> self.spec_has_opened_at())
    }

    /// A closed breaker that opens after three failures and retries after 30 seconds.
    pub fn new() -> (r: Self)
        ensures
            r.wf(),
            r.spec_state() == CircuitState::Closed,
            r.spec_failures() == 0,
            r.spec_threshold() == 3,
            !r.spec_has_opened_at(),
            r.spec_recovery_nanos() == 30 * NANOS_PER_SEC,
    {
        CircuitBreaker {
            state: CircuitState::Closed,
            failure_count: 0,
            failure_threshold: 3,
            opened_at: None,
            recovery_timeout_nanos: 30 * NANOS_PER_SEC,
        }
    }

    /// Decides whether a call is allowed, given how long ago the circuit opened
    /// (meaningful only while it is open with a recorded instant). An open
    /// circuit whose recovery time has passed moves to half-open and allows
    /// the call.
    pub fn should_allow_after(&mut self, elapsed_nanos: u128) -> (r: bool)
        requires
            old(self).wf(),
        ensures
            final(self).wf(),
            final(self).spec_failures() == old(self).spec_failures(),
            final(self).spec_threshold() == old(self).spec_threshold(),
            final(self).spec_opened_at() == old(self).spec_opened_at(),
            final(self).spec_recovery_nanos() == old(self).spec_recovery_nanos(),
            old(self).spec_state() == CircuitState::Closed ==> r && final(self).spec_state()
                == CircuitState::Closed,
            old(self).spec_state() == CircuitState::HalfOpen ==> r && final(self).spec_state()
                == CircuitState::HalfOpen,
            old(self).spec_state() == CircuitState::Open ==> {
                &&& r == (elapsed_nanos >= old(self).spec_recovery_nanos())
                &&& final(self).spec_state() == (if r {
                    CircuitState::HalfOpen
                } else {
                    CircuitState::Open
                })
            },
    {
        match self.state {
            CircuitState::Closed => true,
            CircuitState::HalfOpen => true,
            CircuitState::Open => {
                if elapsed_nanos >= self.recovery_timeout_nanos {
                    self.state = CircuitState::HalfOpen;
                    true
                } else {
                    false
                }
            },
        }
    }

    /// Checks whether a call should be allowed, reading the clock when the
    /// circuit is open.
    pub fn should_allow(&mut self) -> (r: bool)
        requires
            old(self).wf(),
        ensures
            final(self).wf(),
            final(self).spec_failures() == old(self).spec_failures(),
            final(self).spec_threshold() == old(self).spec_threshold(),
            final(self).spec_recovery_nanos() == old(self).spec_recovery_nanos(),
            final(self).spec_opened_at() == old(self).spec_opened_at(),
            old(self).spec_state() == CircuitState::Closed ==> r && final(self).spec_state()
                == CircuitState::Closed,
            old(self).spec_state() == CircuitState::HalfOpen ==> r && final(self).spec_state()
                == CircuitState::HalfOpen,
            old(self).spec_state() == CircuitState::Open ==> (r <==> final(self).spec_state()
                == CircuitState::HalfOpen) && (!r ==> final(self).spec_state()
                == CircuitState::Open),
    {
        let elapsed = match &self.opened_at {
            Some(at) => nanos_since(at),
            None => 0,
        };
        self.should_allow_after(elapsed)
    }

    /// Records a successful call: the circuit closes and the failure count resets.
    pub fn record_success(&mut self)
        requires
            old(self).wf(),
        ensures
            final(self).wf(),
            final(self).spec_state() == CircuitState::Closed,
            final(self).spec_failures() == 0,
            !final(self).spec_has_opened_at(),
            final(self).spec_threshold() == old(self).spec_threshold(),
            final(self).spec_recovery_nanos() == old(self).spec_recovery_nanos(),
    {
        self.failure_count = 0;
        self.state = CircuitState::Closed;
        self.opened_at = None;
    }

    /// Records a failed call; reaching the threshold opens the circuit and
    /// restarts its recovery clock.
    pub fn record_failure(&mut self)
        requires
            old(self).wf(),
            old(self).spec_failures() < u32::MAX,
        ensures
            final(self).wf(),
            final(self).spec_failures() == old(self).spec_failures() + 1,
            final(self).spec_threshold() == old(self).spec_threshold(),
            final(self).spec_recovery_nanos() == old(self).spec_recovery_nanos(),
            final(self).spec_state() == (if final(self).spec_failures()
                >= final(self).spec_threshold() {
                CircuitState::Open
            } else {
                CircuitState::Closed
            }),
            final(self).spec_failures() < final(self).spec_threshold() ==> final(self).spec_opened_at()
                == old(self).spec_opened_at(),
            final(self).spec_failures() >= final(self).spec_threshold()
                ==> final(self).spec_has_opened_at(),
    {
        self.failure_count = self.failure_count + 1;
        if self.failure_count >= self.failure_threshold {
            self.state = CircuitState::Open;
            self.opened_at = Some(instant_now());
        }
    }

    /// Whether the circuit is open (blocking calls).
    pub fn is_open(&self) -> (r: bool)
        ensures
            r == (self.spec_state() == CircuitState::Open),
    {
        self.state == CircuitState::Open
    }

    /// Nanoseconds left before the circuit will try again, given how long ago
    /// it opened; `None` unless the circuit is open, has an opening instant,
    /// and the recovery time has not yet passed.
    pub fn time_until_retry_after(&self, elapsed_nanos: u128) -> (r: Option<u128>)
        ensures
            r is Some <==> (self.spec_state() == CircuitState::Open && self.spec_has_opened_at()
                && elapsed_nanos < self.spec_recovery_nanos()),
            r matches Some(d) ==> d + elapsed_nanos == self.spec_recovery_nanos(),
    {
        if self.state == CircuitState::Open {
            if self.opened_at.is_some() {
                if elapsed_nanos < self.recovery_timeout_nanos {
                    return Some(self.recovery_timeout_nanos - elapsed_nanos);
                }
            }
        }
        None
    }

    /// Nanoseconds until the circuit will try again, reading the clock.
    pub fn time_until_retry(&self) -> (r: Option<u128>)
        ensures
            r is Some ==> self.spec_state() == CircuitState::Open && self.spec_has_opened_at()
                && r->0 > 0 && r->0 <= self.spec_recovery_nanos(),
            !(self.spec_state() == CircuitState::Open && self.spec_has_opened_at()) ==> r is None,
    {
        match &self.opened_at {
            Some(at) => {
                let elapsed = nanos_since(at);
                self.time_until_retry_after(elapsed)
            },
            None => None,
        }
    }

    /// Number of consecutive failures recorded.
    pub fn failure_count(&self) -> (r: u32)
        ensures
            r == self.spec_failures(),
    {
        self.failure_count
    }

    /// Current state.
    pub fn state(&self) -> (r: CircuitState)
        ensures
            r == self.spec_state(),
    {
        self.state
    }
}

} // verus!
