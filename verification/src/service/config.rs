//! Configuration of the solve service.

use vstd::prelude::*;

verus! {

/// Nanoseconds in a second.
pub const NANOS_PER_SEC: u128 = 1_000_000_000;

/// How long the service waits for a solution, and how often it polls. Both
/// durations are counted in nanoseconds, which holds every
/// `std::time::Duration` exactly.
#[derive(Debug, Clone, Copy, PartialEq, Eq, Structural)]
pub struct CaptchaSolverServiceConfig {
    /// Time allowed for the solution, counted from task creation.
    pub timeout_ns: u128,
    /// Pause between two polls.
    pub poll_interval_ns: u128,
}

impl CaptchaSolverServiceConfig {
    /// A configuration with the given timeout and poll interval.
    pub fn new(timeout_ns: u128, poll_interval_ns: u128) -> (c: Self)
        ensures
            c.timeout_ns == timeout_ns,
            c.poll_interval_ns == poll_interval_ns,
    {
        CaptchaSolverServiceConfig { timeout_ns, poll_interval_ns }
    }

    /// For development and tests: 60 s timeout, 2 s poll interval.
    pub fn fast() -> (c: Self)
        ensures
            c.timeout_ns == 60 * NANOS_PER_SEC,
            c.poll_interval_ns == 2 * NANOS_PER_SEC,
    {
        Self::new(60 * NANOS_PER_SEC, 2 * NANOS_PER_SEC)
    }

    /// For most production use (the default): 120 s timeout, 3 s poll
    /// interval.
    pub fn balanced() -> (c: Self)
        ensures
            c.timeout_ns == 120 * NANOS_PER_SEC,
            c.poll_interval_ns == 3 * NANOS_PER_SEC,
    {
        Self::new(120 * NANOS_PER_SEC, 3 * NANOS_PER_SEC)
    }

    /// For slow providers and hard captchas: 300 s timeout, 5 s poll
    /// interval.
    pub fn patient() -> (c: Self)
        ensures
            c.timeout_ns == 300 * NANOS_PER_SEC,
            c.poll_interval_ns == 5 * NANOS_PER_SEC,
    {
        Self::new(300 * NANOS_PER_SEC, 5 * NANOS_PER_SEC)
    }

    /// The same configuration with another timeout.
    pub fn with_timeout(self, timeout_ns: u128) -> (c: Self)
        ensures
            c == (CaptchaSolverServiceConfig { timeout_ns, ..self }),
    {
        CaptchaSolverServiceConfig { timeout_ns, ..self }
    }

    /// The same configuration with another poll interval.
    pub fn with_poll_interval(self, poll_interval_ns: u128) -> (c: Self)
        ensures
            c == (CaptchaSolverServiceConfig { poll_interval_ns, ..self }),
    {
        CaptchaSolverServiceConfig { poll_interval_ns, ..self }
    }

    /// A builder whose unset fields take the defaults.
    pub fn builder() -> (b: CaptchaSolverServiceConfigBuilder)
        ensures
            b.timeout_ns is None,
            b.poll_interval_ns is None,
    {
        CaptchaSolverServiceConfigBuilder { timeout_ns: None, poll_interval_ns: None }
    }
}

impl Default for CaptchaSolverServiceConfig {
    /// The balanced preset.
    fn default() -> (c: Self)
        ensures
            c.timeout_ns == 120 * NANOS_PER_SEC,
            c.poll_interval_ns == 3 * NANOS_PER_SEC,
    {
        Self::balanced()
    }
}

/// Builds a configuration field by field; unset fields take the defaults
/// (120 s timeout, 3 s poll interval).
#[derive(Debug, Clone, Copy, PartialEq, Eq, Structural)]
pub struct CaptchaSolverServiceConfigBuilder {
    /// The timeout, if set.
    pub timeout_ns: Option<u128>,
    /// The poll interval, if set.
    pub poll_interval_ns: Option<u128>,
}

impl CaptchaSolverServiceConfigBuilder {
    /// Sets the timeout.
    pub fn timeout(self, timeout_ns: u128) -> (b: Self)
        ensures
            b == (CaptchaSolverServiceConfigBuilder { timeout_ns: Some(timeout_ns), ..self }),
    {
        CaptchaSolverServiceConfigBuilder { timeout_ns: Some(timeout_ns), ..self }
    }

    /// Sets the poll interval.
    pub fn poll_interval(self, poll_interval_ns: u128) -> (b: Self)
        ensures
            b == (CaptchaSolverServiceConfigBuilder {
                poll_interval_ns: Some(poll_interval_ns),
                ..self
            }),
    {
        CaptchaSolverServiceConfigBuilder { poll_interval_ns: Some(poll_interval_ns), ..self }
    }

    /// The configuration: the set fields, and the defaults for the others.
    pub fn build(self) -> (c: CaptchaSolverServiceConfig)
        ensures
            c.timeout_ns == match self.timeout_ns {
                Some(t) => t as int,
                None => 120 * NANOS_PER_SEC,
            },
            c.poll_interval_ns == match self.poll_interval_ns {
                Some(p) => p as int,
                None => 3 * NANOS_PER_SEC,
            },
    {
        let base = CaptchaSolverServiceConfig::default();
        let timeout_ns = match self.timeout_ns {
            Some(t) => t,
            None => base.timeout_ns,
        };
        let poll_interval_ns = match self.poll_interval_ns {
            Some(p) => p,
            None => base.poll_interval_ns,
        };
        CaptchaSolverServiceConfig { timeout_ns, poll_interval_ns }
    }
}

} // verus!
