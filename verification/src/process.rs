//! Parameters of the stochastic process that the value path is sampled from.

use crate::binary64::{finite, is_finite};
use vstd::prelude::*;

verus! {

/// Why a configuration was turned down.
#[derive(Clone, Copy, Debug, PartialEq, Eq)]
pub enum ConfigError {
    /// The path would have no step.
    NoSteps,
    /// The drift is an infinity or a NaN.
    NonFiniteDrift,
    /// The volatility is an infinity or a NaN.
    NonFiniteVolatility,
    /// The time horizon is an infinity or a NaN.
    NonFiniteHorizon,
    /// The initial value has no wad amount.
    InitialValueOutOfRange,
    /// The path does not hold one sample per step.
    WrongSampleCount,
    /// The sample at this position has no wad amount.
    SampleOutOfRange(usize),
}

/// Time origin of every path: the bit pattern of zero.
pub const TIME_ORIGIN: u64 = 0;

/// Number of paths that a generation draws.
pub const PATH_COUNT: usize = 1;

/// A geometric Brownian motion over `[0, t_n]`, sampled at `n_steps` equally
/// spaced steps. Drift and volatility are stated per horizon: the process runs
/// with `mu / t_n` and `sigma / t_n`. The doubles are held by their bit patterns.
#[derive(Clone, Copy, Debug, PartialEq, Eq)]
pub struct ProcessParameters {
    /// Drift over the whole horizon.
    pub mu: u64,
    /// Volatility over the whole horizon.
    pub sigma: u64,
    /// Time horizon.
    pub t_n: u64,
    /// Number of steps, and of samples in a path.
    pub n_steps: usize,
}

/// The first fault of a configuration, in the order in which it is checked.
pub open spec fn parameter_fault(p: ProcessParameters) -> Option<ConfigError> {
    if p.n_steps == 0 {
        Some(ConfigError::NoSteps)
    } else if !is_finite(p.mu) {
        Some(ConfigError::NonFiniteDrift)
    } else if !is_finite(p.sigma) {
        Some(ConfigError::NonFiniteVolatility)
    } else if !is_finite(p.t_n) {
        Some(ConfigError::NonFiniteHorizon)
    } else {
        None
    }
}

impl ProcessParameters {
    /// At least one step, and finite coefficients and horizon.
    pub open spec fn valid(&self) -> bool {
        &&& self.n_steps >= 1
        &&& is_finite(self.mu)
        &&& is_finite(self.sigma)
        &&& is_finite(self.t_n)
    }

    /// The parameters of a path of `n_steps` steps from time zero to `t_n`.
    ///
    /// Fails on the first of: no step, a drift, a volatility or a horizon that
    /// is not finite.
    pub fn new(mu: u64, sigma: u64, t_n: u64, n_steps: usize) -> (r: Result<
        ProcessParameters,
        ConfigError,
    >)
        ensures
            r == (match parameter_fault((ProcessParameters { mu, sigma, t_n, n_steps })) {
                Some(e) => Err(e),
                None => Ok((ProcessParameters { mu, sigma, t_n, n_steps })),
            }),
            r is Ok ==> r->Ok_0.valid(),
    {
        let p = ProcessParameters { mu, sigma, t_n, n_steps };
        match p.check() {
            Ok(()) => Ok(p),
            Err(e) => Err(e),
        }
    }

    /// Checks the parameters, and names the first fault.
    pub fn check(&self) -> (r: Result<(), ConfigError>)
        ensures
            r == (match parameter_fault(*self) {
                Some(e) => Err::<(), ConfigError>(e),
                None => Ok(()),
            }),
            r is Ok <==> self.valid(),
    {
        if self.n_steps == 0 {
            Err(ConfigError::NoSteps)
        } else if !finite(self.mu) {
            Err(ConfigError::NonFiniteDrift)
        } else if !finite(self.sigma) {
            Err(ConfigError::NonFiniteVolatility)
        } else if !finite(self.t_n) {
            Err(ConfigError::NonFiniteHorizon)
        } else {
            Ok(())
        }
    }
}

} // verus!
