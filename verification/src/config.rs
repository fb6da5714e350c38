//! The settings of the service, checked once and then passed on by value.

use vstd::prelude::*;
use crate::admission::DEFAULT_MAX_CONCURRENCY;
use crate::cache::MAX_CAPACITY;

verus! {

/// Number of documents cached when nothing else is configured.
pub const DEFAULT_CAPACITY: usize = 1000;

/// Time-to-live of a cached document when nothing else is configured: ten
/// minutes on a clock that ticks once a millisecond.
pub const DEFAULT_TTL: u64 = 600_000;

/// Why a set of values is no configuration.
#[derive(Clone, Copy, Debug, PartialEq, Eq, Structural)]
pub enum ConfigError {
    /// The concurrency limit is zero: nothing would ever be admitted.
    ZeroConcurrency,
    /// The cache capacity is zero.
    ZeroCapacity,
    /// The cache capacity is above [`MAX_CAPACITY`].
    CapacityTooLarge,
}

/// The settings as plain numbers.
pub struct ConfigView {
    pub max_concurrency: nat,
    pub capacity: nat,
    pub ttl: u64,
}

impl ConfigView {
    /// Both limits are at least one, and the capacity is one a cache can have.
    pub open spec fn wf(self) -> bool {
        1 <= self.max_concurrency && 1 <= self.capacity <= MAX_CAPACITY
    }
}

/// What is wrong with a pair of limits, if anything. The concurrency limit is
/// looked at first.
pub open spec fn fault(max_concurrency: usize, capacity: usize) -> Option<ConfigError> {
    if max_concurrency == 0 {
        Some(ConfigError::ZeroConcurrency)
    } else if capacity == 0 {
        Some(ConfigError::ZeroCapacity)
    } else if capacity > MAX_CAPACITY {
        Some(ConfigError::CapacityTooLarge)
    } else {
        None
    }
}

/// Immutable, validated settings: how many jobs may run at once, how many
/// documents the cache holds, and for how many ticks a document is served.
#[derive(Clone, Copy, Debug)]
pub struct Config {
    max_concurrency: usize,
    capacity: usize,
    ttl: u64,
}

impl View for Config {
    type V = ConfigView;

    closed spec fn view(&self) -> ConfigView {
        ConfigView {
            max_concurrency: self.max_concurrency as nat,
            capacity: self.capacity as nat,
            ttl: self.ttl,
        }
    }
}

impl Config {
    /// Holds of every configuration.
    #[verifier::type_invariant]
    pub open spec fn inv(self) -> bool {
        self@.wf()
    }

    /// Checks the values and keeps them. Any `ttl` is accepted; zero means that
    /// no cached document is ever served.
    pub fn new(max_concurrency: usize, capacity: usize, ttl: u64) -> (config: Result<
        Config,
        ConfigError,
    >)
        ensures
            match config {
                Ok(c) => fault(max_concurrency, capacity) is None && c@ == (ConfigView {
                    max_concurrency: max_concurrency as nat,
                    capacity: capacity as nat,
                    ttl,
                }) && c@.wf(),
                Err(e) => fault(max_concurrency, capacity) == Some(e),
            },
    {
        if max_concurrency == 0 {
            Err(ConfigError::ZeroConcurrency)
        } else if capacity == 0 {
            Err(ConfigError::ZeroCapacity)
        } else if capacity > MAX_CAPACITY {
            Err(ConfigError::CapacityTooLarge)
        } else {
            Ok(Config { max_concurrency, capacity, ttl })
        }
    }

    /// The concurrency limit.
    pub fn max_concurrency(&self) -> (n: usize)
        ensures
            n == self@.max_concurrency,
            self@.wf(),
    {
        proof {
            use_type_invariant(self);
        }
        self.max_concurrency
    }

    /// The cache capacity.
    pub fn capacity(&self) -> (n: usize)
        ensures
            n == self@.capacity,
            self@.wf(),
    {
        proof {
            use_type_invariant(self);
        }
        self.capacity
    }

    /// The time-to-live of a cached document, in ticks.
    pub fn ttl(&self) -> (t: u64)
        ensures
            t == self@.ttl,
    {
        self.ttl
    }
}

impl Default for Config {
    /// Four jobs at once, a thousand cached documents, ten minutes each.
    fn default() -> (config: Config)
        ensures
            config@ == (ConfigView {
                max_concurrency: DEFAULT_MAX_CONCURRENCY as nat,
                capacity: DEFAULT_CAPACITY as nat,
                ttl: DEFAULT_TTL,
            }),
            config@.wf(),
    {
        Config {
            max_concurrency: DEFAULT_MAX_CONCURRENCY,
            capacity: DEFAULT_CAPACITY,
            ttl: DEFAULT_TTL,
        }
    }
}

} // verus!
