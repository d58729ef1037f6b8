//! Configuration of the consensus engine.

use vstd::prelude::*;
use std::time::Duration;
use crate::clock::{duration_from_millis, duration_from_secs, duration_nanos};

verus! {

/// Timeouts, limits and retry settings of the consensus engine.
#[derive(Debug, Clone)]
pub struct RabiaConfig {
    pub phase_timeout: Duration,
    pub sync_timeout: Duration,
    pub max_batch_size: usize,
    pub max_pending_batches: usize,
    pub cleanup_interval: Duration,
    pub max_phase_history: usize,
    pub heartbeat_interval: Duration,
    pub randomization_seed: Option<u64>,
    pub max_retries: usize,
    pub backoff_base: Duration,
    pub backoff_max: Duration,
}

/// The default configuration, field by field.
pub open spec fn is_default_config(c: RabiaConfig) -> bool {
    &&& duration_nanos(c.phase_timeout) == 5_000_000_000
    &&& duration_nanos(c.sync_timeout) == 10_000_000_000
    &&& c.max_batch_size == 1000
    &&& c.max_pending_batches == 100
    &&& duration_nanos(c.cleanup_interval) == 30_000_000_000
    &&& c.max_phase_history == 1000
    &&& duration_nanos(c.heartbeat_interval) == 1_000_000_000
    &&& c.randomization_seed is None
    &&& c.max_retries == 3
    &&& duration_nanos(c.backoff_base) == 100_000_000
    &&& duration_nanos(c.backoff_max) == 10_000_000_000
}

impl Default for RabiaConfig {
    /// 5 s phase timeout, 10 s sync timeout, batches of up to 1000 commands,
    /// 100 pending batches, cleanup every 30 s keeping 1000 phases, heartbeat
    /// every second, no fixed seed, 3 retries with backoff from 100 ms to 10 s.
    fn default() -> (r: RabiaConfig)
        ensures
            is_default_config(r),
    {
        RabiaConfig {
            phase_timeout: duration_from_millis(5000),
            sync_timeout: duration_from_millis(10000),
            max_batch_size: 1000,
            max_pending_batches: 100,
            cleanup_interval: duration_from_secs(30),
            max_phase_history: 1000,
            heartbeat_interval: duration_from_millis(1000),
            randomization_seed: None,
            max_retries: 3,
            backoff_base: duration_from_millis(100),
            backoff_max: duration_from_secs(10),
        }
    }
}

impl RabiaConfig {
    /// The default configuration.
    pub fn new() -> (r: RabiaConfig)
        ensures
            is_default_config(r),
    {
        Self::default()
    }

    /// The same configuration with the given phase timeout.
    pub fn with_phase_timeout(self, timeout: Duration) -> (r: RabiaConfig)
        ensures
            r == (RabiaConfig { phase_timeout: timeout, ..self }),
    {
        let mut c = self;
        c.phase_timeout = timeout;
        c
    }

    /// The same configuration with the given sync timeout.
    pub fn with_sync_timeout(self, timeout: Duration) -> (r: RabiaConfig)
        ensures
            r == (RabiaConfig { sync_timeout: timeout, ..self }),
    {
        let mut c = self;
        c.sync_timeout = timeout;
        c
    }

    /// The same configuration with the given maximum batch size.
    pub fn with_max_batch_size(self, size: usize) -> (r: RabiaConfig)
        ensures
            r == (RabiaConfig { max_batch_size: size, ..self }),
    {
        let mut c = self;
        c.max_batch_size = size;
        c
    }

    /// The same configuration with the given cleanup interval.
    pub fn with_cleanup_interval(self, interval: Duration) -> (r: RabiaConfig)
        ensures
            r == (RabiaConfig { cleanup_interval: interval, ..self }),
    {
        let mut c = self;
        c.cleanup_interval = interval;
        c
    }

    /// The same configuration with a fixed seed for the randomized votes.
    pub fn with_randomization_seed(self, seed: u64) -> (r: RabiaConfig)
        ensures
            r == (RabiaConfig { randomization_seed: Some(seed), ..self }),
    {
        let mut c = self;
        c.randomization_seed = Some(seed);
        c
    }
}

} // verus!
