//! Health of the cluster's nodes: each node's status from the outcomes of
//! its health checks, and counters over all checks.

use vstd::prelude::*;
use std::time::Duration;
use vstd::wrapping::u64_specs;
use crate::types::NodeId;
use crate::table::{Table, lemma_entries_len, lemma_entries_dom};
use crate::leader_error::LeaderError;
use crate::engine_state::bumped;
use crate::clock::{unix_time_millis, duration_from_secs, duration_from_millis, duration_as_millis, duration_at_least, duration_nanos};
use crate::text::concat;

verus! {

/// Health status of a node.
#[derive(Debug, PartialEq)]
pub enum HealthStatus {
    /// Node is healthy and responsive
    Healthy,
    /// Node is degraded but operational
    Degraded {
        /// Reason for degradation
        reason: String,
        /// Severity level (0-100, higher = more severe)
        severity: u8,
    },
    /// Node is unhealthy and not responsive
    Unhealthy {
        /// Reason for unhealthy status
        reason: String,
        /// When the node became unhealthy
        since: u64,
    },
    /// Node status is unknown
    Unknown,
}

impl Clone for HealthStatus {
    fn clone(&self) -> (r: HealthStatus)
        ensures
            r == *self,
    {
        match self {
            HealthStatus::Healthy => HealthStatus::Healthy,
            HealthStatus::Degraded { reason, severity } => HealthStatus::Degraded { reason: reason.clone(), severity: *severity },
            HealthStatus::Unhealthy { reason, since } => HealthStatus::Unhealthy { reason: reason.clone(), since: *since },
            HealthStatus::Unknown => HealthStatus::Unknown,
        }
    }
}

/// The health record of a node.
#[derive(Debug)]
pub struct NodeHealth {
    /// Node identifier
    pub node_id: NodeId,
    /// Current health status
    pub status: HealthStatus,
    /// Last health check
    pub last_check: u64,
    /// Response time for last health check
    pub response_time: Duration,
    /// Number of consecutive failed checks
    pub consecutive_failures: u32,
    /// Number of consecutive successful checks
    pub consecutive_successes: u32,
    /// Total number of health checks performed
    pub total_checks: u64,
}

impl Clone for NodeHealth {
    fn clone(&self) -> (r: NodeHealth)
        ensures
            r == *self,
    {
        NodeHealth {
            node_id: self.node_id,
            status: self.status.clone(),
            last_check: self.last_check,
            response_time: self.response_time.clone(),
            consecutive_failures: self.consecutive_failures,
            consecutive_successes: self.consecutive_successes,
            total_checks: self.total_checks,
        }
    }
}

/// Settings of health monitoring.
#[derive(Debug, Clone)]
pub struct HealthConfig {
    /// Interval between health checks
    pub check_interval: Duration,
    /// Timeout for health check responses
    pub check_timeout: Duration,
    /// Number of failed checks before marking unhealthy
    pub failure_threshold: u32,
    /// Number of successful checks before marking healthy
    pub recovery_threshold: u32,
    /// Enable detailed health metrics collection
    pub detailed_metrics: bool,
    /// Maximum response time before marking as degraded
    pub degraded_threshold: Duration,
}

impl Default for HealthConfig {
    fn default() -> (r: HealthConfig)
        ensures
            duration_nanos(r.check_interval) == 5_000_000_000,
            duration_nanos(r.check_timeout) == 3_000_000_000,
            r.failure_threshold == 3,
            r.recovery_threshold == 2,
            r.detailed_metrics,
            duration_nanos(r.degraded_threshold) == 1_000_000_000,
    {
        HealthConfig {
            check_interval: duration_from_secs(5),
            check_timeout: duration_from_secs(3),
            failure_threshold: 3,
            recovery_threshold: 2,
            detailed_metrics: true,
            degraded_threshold: duration_from_millis(1000),
        }
    }
}

/// Counters over all health checks.
#[derive(Debug, Clone)]
pub struct HealthStats {
    pub total_checks: u64,
    pub successful_checks: u64,
    pub failed_checks: u64,
    pub timeouts: u64,
    pub nodes_marked_unhealthy: u64,
    pub nodes_recovered: u64,
    pub average_response_time: Duration,
}

/// The outcome of one health check.
#[derive(Debug)]
pub enum HealthCheckOutcome {
    /// The node answered.
    Success,
    /// The node failed the check, for `reason`.
    Failure { reason: String },
    /// The node did not answer in time.
    Timeout,
}

/// `n` plus one, wrapping at `u32::MAX`.
pub open spec fn bumped32(n: u32) -> u32 {
    if n == u32::MAX { 0 } else { (n + 1) as u32 }
}

/// The text of a `Duration` as its `Debug` writes it, for a duration of
/// `nanos` nanoseconds.
pub uninterp spec fn duration_debug_text(nanos: nat) -> Seq<char>;

/// The `Debug` text of `d`.
///
/// Calls `format!` with `{:?}`; `Duration`'s `Debug` depends on the
/// duration alone, and its text is the name `duration_debug_text`.
#[verifier::external_body]
fn duration_debug(d: &Duration) -> (r: String)
    ensures
        r@ == duration_debug_text(duration_nanos(*d)),
{
    format!("{:?}", d)
}

/// A health status with its reason as text.
pub enum StatusView {
    Healthy,
    Degraded { reason: Seq<char>, severity: u8 },
    Unhealthy { reason: Seq<char>, since: u64 },
    Unknown,
}

impl View for HealthStatus {
    type V = StatusView;

    open spec fn view(&self) -> StatusView {
        match self {
            HealthStatus::Healthy => StatusView::Healthy,
            HealthStatus::Degraded { reason, severity } => StatusView::Degraded { reason: reason@, severity: *severity },
            HealthStatus::Unhealthy { reason, since } => StatusView::Unhealthy { reason: reason@, since: *since },
            HealthStatus::Unknown => StatusView::Unknown,
        }
    }
}

/// A node's health record with its status as a `StatusView`.
pub struct NodeHealthView {
    pub node_id: NodeId,
    pub status: StatusView,
    pub last_check: u64,
    pub response_time: Duration,
    pub consecutive_failures: u32,
    pub consecutive_successes: u32,
    pub total_checks: u64,
}

impl View for NodeHealth {
    type V = NodeHealthView;

    open spec fn view(&self) -> NodeHealthView {
        NodeHealthView {
            node_id: self.node_id,
            status: self.status@,
            last_check: self.last_check,
            response_time: self.response_time,
            consecutive_failures: self.consecutive_failures,
            consecutive_successes: self.consecutive_successes,
            total_checks: self.total_checks,
        }
    }
}

/// The record of a node after a check with `outcome`, response time `rt`
/// and the time `now`: a success resets the failures and counts a success;
/// the status becomes degraded when the response took longer than the
/// threshold, healthy once enough successes follow one another, and
/// otherwise stays. A failure or a timeout resets the successes and counts
/// a failure; the status becomes unhealthy once enough failures follow one
/// another.
pub open spec fn health_step(h: NodeHealthView, outcome: HealthCheckOutcome, rt: Duration, now: u64, cfg: HealthConfig) -> NodeHealthView {
    let base = NodeHealthView { last_check: now, response_time: rt, total_checks: bumped(h.total_checks), ..h };
    match outcome {
        HealthCheckOutcome::Success => {
            let successes = bumped32(h.consecutive_successes);
            NodeHealthView {
                consecutive_failures: 0,
                consecutive_successes: successes,
                status: if duration_nanos(rt) > duration_nanos(cfg.degraded_threshold) {
                    StatusView::Degraded { reason: "High response time: "@ + duration_debug_text(duration_nanos(rt)), severity: 50 }
                } else if successes >= cfg.recovery_threshold {
                    StatusView::Healthy
                } else {
                    h.status
                },
                ..base
            }
        },
        HealthCheckOutcome::Failure { reason } => {
            let failures = bumped32(h.consecutive_failures);
            NodeHealthView {
                consecutive_successes: 0,
                consecutive_failures: failures,
                status: if failures >= cfg.failure_threshold {
                    StatusView::Unhealthy { reason: reason@, since: now }
                } else {
                    h.status
                },
                ..base
            }
        },
        HealthCheckOutcome::Timeout => {
            let failures = bumped32(h.consecutive_failures);
            NodeHealthView {
                consecutive_successes: 0,
                consecutive_failures: failures,
                status: if failures >= cfg.failure_threshold {
                    StatusView::Unhealthy { reason: "Health check timeout"@, since: now }
                } else {
                    h.status
                },
                ..base
            }
        },
    }
}

/// Checks in a row: a successful check leaves a node with no failures in a
/// row and one more success in a row; a failed or timed-out check leaves it
/// with no successes in a row and one more failure in a row (the counts
/// wrap only past `u32::MAX`). A check makes a node unhealthy only when it
/// is a failure or a timeout that brings its failures in a row to the
/// threshold, and a success never makes it unhealthy.
pub proof fn lemma_health_streaks(h: NodeHealthView, outcome: HealthCheckOutcome, rt: Duration, now: u64, cfg: HealthConfig)
    ensures
        outcome is Success ==> health_step(h, outcome, rt, now, cfg).consecutive_failures == 0,
        outcome is Success && h.consecutive_successes < u32::MAX
            ==> health_step(h, outcome, rt, now, cfg).consecutive_successes == h.consecutive_successes + 1,
        !(outcome is Success) ==> health_step(h, outcome, rt, now, cfg).consecutive_successes == 0,
        !(outcome is Success) && h.consecutive_failures < u32::MAX
            ==> health_step(h, outcome, rt, now, cfg).consecutive_failures == h.consecutive_failures + 1,
        outcome is Success && !(h.status is Unhealthy) ==> !(health_step(h, outcome, rt, now, cfg).status is Unhealthy),
        health_step(h, outcome, rt, now, cfg).status is Unhealthy && !(h.status is Unhealthy) ==> {
            &&& !(outcome is Success)
            &&& health_step(h, outcome, rt, now, cfg).consecutive_failures >= cfg.failure_threshold
        },
        !(outcome is Success) && h.consecutive_failures < u32::MAX && h.consecutive_failures + 1 >= cfg.failure_threshold
            ==> (health_step(h, outcome, rt, now, cfg).status matches StatusView::Unhealthy { since, .. } && since == now),
        !(outcome is Success) && h.consecutive_failures + 1 < cfg.failure_threshold
            ==> health_step(h, outcome, rt, now, cfg).status == h.status,
        outcome is Success && duration_nanos(rt) > duration_nanos(cfg.degraded_threshold)
            ==> health_step(h, outcome, rt, now, cfg).status is Degraded,
        outcome is Success && duration_nanos(rt) <= duration_nanos(cfg.degraded_threshold)
            && h.consecutive_successes < u32::MAX && h.consecutive_successes + 1 >= cfg.recovery_threshold
            ==> health_step(h, outcome, rt, now, cfg).status is Healthy,
        health_step(h, outcome, rt, now, cfg).total_checks == bumped(h.total_checks),
        health_step(h, outcome, rt, now, cfg).last_check == now,
        health_step(h, outcome, rt, now, cfg).node_id == h.node_id,
{
}

/// Failures count from the last success: after a success followed by a
/// failure or a timeout, a node has exactly one failure in a row, whatever
/// came before.
pub proof fn lemma_failures_restart_after_success(
    h: NodeHealthView,
    rt1: Duration,
    t1: u64,
    bad: HealthCheckOutcome,
    rt2: Duration,
    t2: u64,
    cfg: HealthConfig,
)
    requires
        !(bad is Success),
    ensures
        health_step(health_step(h, HealthCheckOutcome::Success, rt1, t1, cfg), bad, rt2, t2, cfg).consecutive_failures == 1,
        health_step(health_step(h, HealthCheckOutcome::Success, rt1, t1, cfg), bad, rt2, t2, cfg).consecutive_successes == 0,
{
}

/// The counters after a check of a node whose status was `before` and
/// became `after`, with `outcome` and response time `rt`; `registered`
/// tells whether the node was monitored (the counters of outcomes move only
/// then).
pub open spec fn stats_step(s: HealthStats, registered: bool, before: StatusView, after: StatusView, outcome: HealthCheckOutcome, rt: Duration) -> HealthStats {
    let counted = if !registered {
        s
    } else {
        match outcome {
            HealthCheckOutcome::Success => HealthStats {
                successful_checks: bumped(s.successful_checks),
                nodes_recovered: if after is Healthy && !(before is Healthy) { bumped(s.nodes_recovered) } else { s.nodes_recovered },
                ..s
            },
            HealthCheckOutcome::Failure { .. } => HealthStats {
                failed_checks: bumped(s.failed_checks),
                nodes_marked_unhealthy: if after is Unhealthy && !(before is Unhealthy) { bumped(s.nodes_marked_unhealthy) } else { s.nodes_marked_unhealthy },
                ..s
            },
            HealthCheckOutcome::Timeout => HealthStats {
                failed_checks: bumped(s.failed_checks),
                timeouts: bumped(s.timeouts),
                ..s
            },
        }
    };
    HealthStats { total_checks: bumped(counted.total_checks), ..counted }
}

/// The average response time after a check, in whole milliseconds, when
/// `successes` successful checks are counted: the previous average counts
/// for the checks before the last, with wrapping 64-bit arithmetic.
pub open spec fn average_millis(avg: Duration, successes: u64, rt: Duration) -> u64 {
    let avg_ms = (duration_nanos(avg) / 1_000_000) as u64;
    let rt_ms = (duration_nanos(rt) / 1_000_000) as u64;
    (u64_specs::wrapping_add(u64_specs::wrapping_mul(avg_ms, (successes - 1) as u64), rt_ms) / successes) as u64
}

/// Health records of the monitored nodes and counters over all checks.
pub struct HealthMonitor {
    config: HealthConfig,
    node_health: Table<NodeHealth>,
    stats: HealthStats,
}

impl HealthMonitor {
    /// The records, by node identifier.
    pub closed spec fn records(&self) -> Map<u128, NodeHealth> {
        self.node_health.map()
    }

    /// The records in the order the nodes were registered.
    pub closed spec fn record_order(&self) -> Seq<(u128, NodeHealth)> {
        self.node_health.entries()
    }

    /// The configuration.
    pub closed spec fn config_view(&self) -> HealthConfig {
        self.config
    }

    /// The counters.
    pub closed spec fn stats_view(&self) -> HealthStats {
        self.stats
    }

    /// The counters of a monitor that has checked nothing: all zero.
    pub open spec fn zero_stats(s: HealthStats) -> bool {
        &&& s.total_checks == 0
        &&& s.successful_checks == 0
        &&& s.failed_checks == 0
        &&& s.timeouts == 0
        &&& s.nodes_marked_unhealthy == 0
        &&& s.nodes_recovered == 0
        &&& duration_nanos(s.average_response_time) == 0
    }

    /// `h` is the record of `node_id` just registered: unknown status, no
    /// response time, and no check counted.
    pub open spec fn fresh_record(h: NodeHealth, node_id: NodeId) -> bool {
        &&& h.node_id == node_id
        &&& h.status is Unknown
        &&& duration_nanos(h.response_time) == 0
        &&& h.consecutive_failures == 0
        &&& h.consecutive_successes == 0
        &&& h.total_checks == 0
    }

    /// A monitor with `config` and no node.
    pub fn with_config(config: HealthConfig) -> (r: Result<HealthMonitor, LeaderError>)
        ensures
            r matches Ok(m) && m.config_view() == config && m.records() == Map::<u128, NodeHealth>::empty()
                && HealthMonitor::zero_stats(m.stats_view()),
    {
        Ok(HealthMonitor {
            config,
            node_health: Table::new(),
            stats: HealthStats {
                total_checks: 0,
                successful_checks: 0,
                failed_checks: 0,
                timeouts: 0,
                nodes_marked_unhealthy: 0,
                nodes_recovered: 0,
                average_response_time: duration_from_millis(0),
            },
        })
    }

    /// A monitor with the default configuration, no node, and its counters
    /// at zero.
    pub fn new() -> (r: Result<HealthMonitor, LeaderError>)
        ensures
            r matches Ok(m) && m.records() == Map::<u128, NodeHealth>::empty()
                && HealthMonitor::zero_stats(m.stats_view())
                && duration_nanos(m.config_view().check_interval) == 5_000_000_000
                && duration_nanos(m.config_view().check_timeout) == 3_000_000_000
                && m.config_view().failure_threshold == 3 && m.config_view().recovery_threshold == 2
                && m.config_view().detailed_metrics
                && duration_nanos(m.config_view().degraded_threshold) == 1_000_000_000,
    {
        HealthMonitor::with_config(HealthConfig::default())
    }

    /// Starts monitoring `node_id` with an unknown status, checked last at
    /// `now`, replacing any earlier record.
    pub fn register_node_at(&mut self, node_id: NodeId, now: u64) -> (r: Result<(), LeaderError>)
        ensures
            r is Ok,
            final(self).config_view() == old(self).config_view(),
            final(self).stats_view() == old(self).stats_view(),
            final(self).records().dom() == old(self).records().dom().insert(node_id.0),
            forall|k: u128| k != node_id.0 && #[trigger] old(self).records().contains_key(k)
                ==> final(self).records()[k] == old(self).records()[k],
            HealthMonitor::fresh_record(final(self).records()[node_id.0], node_id),
            final(self).records()[node_id.0].last_check == now,
    {
        let health = NodeHealth {
            node_id,
            status: HealthStatus::Unknown,
            last_check: now,
            response_time: duration_from_millis(0),
            consecutive_failures: 0,
            consecutive_successes: 0,
            total_checks: 0,
        };
        self.node_health.insert(node_id.0, health);
        Ok(())
    }

    /// Starts monitoring `node_id`, stamped with the present time: the same
    /// as `register_node_at` but for the time of the last check, which is
    /// the clock's.
    pub fn register_node(&mut self, node_id: NodeId) -> (r: Result<(), LeaderError>)
        ensures
            r is Ok,
            final(self).config_view() == old(self).config_view(),
            final(self).stats_view() == old(self).stats_view(),
            final(self).records().dom() == old(self).records().dom().insert(node_id.0),
            forall|k: u128| k != node_id.0 && #[trigger] old(self).records().contains_key(k)
                ==> final(self).records()[k] == old(self).records()[k],
            HealthMonitor::fresh_record(final(self).records()[node_id.0], node_id),
    {
        let now = unix_time_millis();
        self.register_node_at(node_id, now)
    }

    /// Stops monitoring `node_id`.
    pub fn unregister_node(&mut self, node_id: NodeId) -> (r: Result<(), LeaderError>)
        ensures
            r is Ok,
            final(self).config_view() == old(self).config_view(),
            final(self).stats_view() == old(self).stats_view(),
            final(self).records() == old(self).records().remove(node_id.0),
    {
        self.node_health.remove(node_id.0);
        Ok(())
    }

    /// Records a check of `node_id` with `outcome` and response time
    /// `response_time`, done at time `now`: the node's record moves on as
    /// `health_step` says (when the node is monitored), the counters as
    /// `stats_step` says, and the average response time is recomputed
    /// while some check succeeded.
    pub fn update_node_health(&mut self, node_id: NodeId, outcome: HealthCheckOutcome, response_time: Duration, now: u64) -> (r: Result<(), LeaderError>)
        ensures
            r is Ok,
            final(self).config_view() == old(self).config_view(),
            final(self).records().dom() == old(self).records().dom(),
            forall|k: u128| k != node_id.0 && #[trigger] old(self).records().contains_key(k)
                ==> final(self).records()[k] == old(self).records()[k],
            old(self).records().contains_key(node_id.0) ==> final(self).records()[node_id.0]@
                == health_step(old(self).records()[node_id.0]@, outcome, response_time, now, old(self).config_view()),
            ({
                let registered = old(self).records().contains_key(node_id.0);
                let before = if registered { old(self).records()[node_id.0]@.status } else { StatusView::Unknown };
                let after = if registered { final(self).records()[node_id.0]@.status } else { StatusView::Unknown };
                let s = stats_step(old(self).stats_view(), registered, before, after, outcome, response_time);
                &&& final(self).stats_view().total_checks == s.total_checks
                &&& final(self).stats_view().successful_checks == s.successful_checks
                &&& final(self).stats_view().failed_checks == s.failed_checks
                &&& final(self).stats_view().timeouts == s.timeouts
                &&& final(self).stats_view().nodes_marked_unhealthy == s.nodes_marked_unhealthy
                &&& final(self).stats_view().nodes_recovered == s.nodes_recovered
                &&& if s.successful_checks > 0 {
                    duration_nanos(final(self).stats_view().average_response_time)
                        == average_millis(old(self).stats_view().average_response_time, s.successful_checks, response_time) as nat * 1_000_000
                } else {
                    final(self).stats_view().average_response_time == old(self).stats_view().average_response_time
                }
            }),
    {
        match self.node_health.remove(node_id.0) {
            Some(old_health) => {
                let ghost h0 = old_health;
                let mut health = old_health;
                health.last_check = now;
                health.response_time = response_time.clone();
                health.total_checks = health.total_checks.wrapping_add(1);
                let was_healthy = matches!(health.status, HealthStatus::Healthy);
                let was_unhealthy = matches!(health.status, HealthStatus::Unhealthy { .. });
                match outcome {
                    HealthCheckOutcome::Success => {
                        health.consecutive_failures = 0;
                        health.consecutive_successes = health.consecutive_successes.wrapping_add(1);
                        if !duration_at_least(&self.config.degraded_threshold, &response_time) {
                            let text = duration_debug(&response_time);
                            health.status = HealthStatus::Degraded {
                                reason: concat("High response time: ", text.as_str()),
                                severity: 50,
                            };
                        } else if health.consecutive_successes >= self.config.recovery_threshold {
                            if !was_healthy {
                                self.stats.nodes_recovered = self.stats.nodes_recovered.wrapping_add(1);
                            }
                            health.status = HealthStatus::Healthy;
                        }
                        self.stats.successful_checks = self.stats.successful_checks.wrapping_add(1);
                    },
                    HealthCheckOutcome::Failure { reason } => {
                        health.consecutive_successes = 0;
                        health.consecutive_failures = health.consecutive_failures.wrapping_add(1);
                        if health.consecutive_failures >= self.config.failure_threshold {
                            if !was_unhealthy {
                                self.stats.nodes_marked_unhealthy = self.stats.nodes_marked_unhealthy.wrapping_add(1);
                            }
                            health.status = HealthStatus::Unhealthy { reason, since: now };
                        }
                        self.stats.failed_checks = self.stats.failed_checks.wrapping_add(1);
                    },
                    HealthCheckOutcome::Timeout => {
                        health.consecutive_successes = 0;
                        health.consecutive_failures = health.consecutive_failures.wrapping_add(1);
                        if health.consecutive_failures >= self.config.failure_threshold {
                            health.status = HealthStatus::Unhealthy { reason: "Health check timeout".to_owned(), since: now };
                        }
                        self.stats.timeouts = self.stats.timeouts.wrapping_add(1);
                        self.stats.failed_checks = self.stats.failed_checks.wrapping_add(1);
                    },
                }
                self.node_health.insert(node_id.0, health);
                proof {
                    assert(self.node_health.map() =~= old(self).node_health.map().insert(node_id.0, health));
                }
            },
            None => {},
        }
        self.stats.total_checks = self.stats.total_checks.wrapping_add(1);
        if self.stats.successful_checks > 0 {
            let avg_ms = duration_as_millis(&self.stats.average_response_time) as u64;
            let rt_ms = duration_as_millis(&response_time) as u64;
            let total = avg_ms.wrapping_mul(self.stats.successful_checks - 1).wrapping_add(rt_ms);
            self.stats.average_response_time = duration_from_millis(total / self.stats.successful_checks);
        }
        Ok(())
    }

    /// The status of `node_id`; unknown when it is not monitored.
    pub fn node_status(&self, node_id: NodeId) -> (r: HealthStatus)
        ensures
            r == if self.records().contains_key(node_id.0) { self.records()[node_id.0].status } else { HealthStatus::Unknown },
    {
        match self.node_health.get(node_id.0) {
            Some(h) => h.status.clone(),
            None => HealthStatus::Unknown,
        }
    }

    /// The record of `node_id`, if monitored.
    pub fn get_node_health(&self, node_id: NodeId) -> (r: Option<NodeHealth>)
        ensures
            r == if self.records().contains_key(node_id.0) { Some(self.records()[node_id.0]) } else { None },
    {
        match self.node_health.get(node_id.0) {
            Some(h) => Some(h.clone()),
            None => None,
        }
    }

    /// The records of all monitored nodes, in the order they were
    /// registered.
    pub fn get_all_health(&self) -> (r: Vec<(NodeId, NodeHealth)>)
        ensures
            r@.len() == self.record_order().len(),
            forall|i: int| 0 <= i < r@.len() ==> (#[trigger] r@[i]).0.0 == self.record_order()[i].0
                && r@[i].1 == self.record_order()[i].1,
    {
        let n = self.node_health.len();
        let mut out: Vec<(NodeId, NodeHealth)> = Vec::new();
        let mut i: usize = 0;
        while i < n
            invariant
                n == self.record_order().len(),
                i <= n,
                out@.len() == i,
                forall|j: int| 0 <= j < i ==> (#[trigger] out@[j]).0.0 == self.record_order()[j].0
                    && out@[j].1 == self.record_order()[j].1,
            decreases n - i,
        {
            out.push((NodeId(self.node_health.key_at(i)), self.node_health.value_at(i).clone()));
            i = i + 1;
        }
        out
    }

    /// The monitored nodes whose status satisfies `healthy` (healthy
    /// nodes) or else is unhealthy, in the order they were registered.
    fn nodes_with(&self, healthy: bool) -> (r: Vec<NodeId>)
        ensures
            forall|k: u128| r@.contains(NodeId(k)) <==> self.records().contains_key(k)
                && (if healthy { self.records()[k].status is Healthy } else { self.records()[k].status is Unhealthy }),
    {
        let n = self.node_health.len();
        let ghost order = self.record_order();
        let mut out: Vec<NodeId> = Vec::new();
        let mut i: usize = 0;
        while i < n
            invariant
                n == order.len(),
                order == self.record_order(),
                i <= n,
                crate::table::keys_unique(order),
                forall|m: NodeId| out@.contains(m) <==> exists|j: int| 0 <= j < i && #[trigger] order[j].0 == m.0
                    && (if healthy { order[j].1.status is Healthy } else { order[j].1.status is Unhealthy }),
            decreases n - i,
        {
            let h = self.node_health.value_at(i);
            let k = self.node_health.key_at(i);
            let pick = if healthy {
                matches!(h.status, HealthStatus::Healthy)
            } else {
                matches!(h.status, HealthStatus::Unhealthy { .. })
            };
            let ghost before = out@;
            if pick {
                out.push(NodeId(k));
            }
            proof {
                assert forall|m: NodeId| out@.contains(m) <==> exists|j: int| 0 <= j < i + 1 && #[trigger] order[j].0 == m.0
                    && (if healthy { order[j].1.status is Healthy } else { order[j].1.status is Unhealthy }) by {
                    if before.contains(m) {
                        let x = choose|x: int| 0 <= x < before.len() && before[x] == m;
                        assert(out@[x] == m);
                    }
                    if out@.contains(m) && !before.contains(m) {
                        assert(order[i as int].0 == m.0);
                    }
                    if exists|j: int| 0 <= j < i + 1 && #[trigger] order[j].0 == m.0
                        && (if healthy { order[j].1.status is Healthy } else { order[j].1.status is Unhealthy }) {
                        let j = choose|j: int| 0 <= j < i + 1 && #[trigger] order[j].0 == m.0
                            && (if healthy { order[j].1.status is Healthy } else { order[j].1.status is Unhealthy });
                        if j == i {
                            assert(out@[out@.len() - 1] == m);
                        } else {
                            assert(before.contains(m));
                            let x = choose|x: int| 0 <= x < before.len() && before[x] == m;
                            assert(out@[x] == m);
                        }
                    }
                }
            }
            i = i + 1;
        }
        proof {
            assert forall|k: u128| out@.contains(NodeId(k)) <==> self.records().contains_key(k)
                && (if healthy { self.records()[k].status is Healthy } else { self.records()[k].status is Unhealthy }) by {
                lemma_entries_dom(order, k);
                if out@.contains(NodeId(k)) {
                    let j = choose|j: int| 0 <= j < i && #[trigger] order[j].0 == NodeId(k).0
                        && (if healthy { order[j].1.status is Healthy } else { order[j].1.status is Unhealthy });
                    crate::table::lemma_entries_at(order, j);
                }
                if self.records().contains_key(k) {
                    let j = choose|j: int| 0 <= j < order.len() && order[j].0 == k;
                    crate::table::lemma_entries_at(order, j);
                }
            }
        }
        out
    }

    /// The monitored nodes that are healthy.
    pub fn get_healthy_nodes(&self) -> (r: Vec<NodeId>)
        ensures
            forall|k: u128| r@.contains(NodeId(k)) <==> self.records().contains_key(k) && self.records()[k].status is Healthy,
    {
        self.nodes_with(true)
    }

    /// The monitored nodes that are unhealthy.
    pub fn get_unhealthy_nodes(&self) -> (r: Vec<NodeId>)
        ensures
            forall|k: u128| r@.contains(NodeId(k)) <==> self.records().contains_key(k) && self.records()[k].status is Unhealthy,
    {
        self.nodes_with(false)
    }

    /// Whether `node_id` is monitored and healthy.
    pub fn is_node_healthy(&self, node_id: NodeId) -> (r: bool)
        ensures
            r == (self.records().contains_key(node_id.0) && self.records()[node_id.0].status is Healthy),
    {
        match self.node_health.get(node_id.0) {
            Some(h) => matches!(h.status, HealthStatus::Healthy),
            None => false,
        }
    }

    /// The counters.
    pub fn get_stats(&self) -> (r: HealthStats)
        ensures
            r == self.stats_view(),
    {
        HealthStats {
            total_checks: self.stats.total_checks,
            successful_checks: self.stats.successful_checks,
            failed_checks: self.stats.failed_checks,
            timeouts: self.stats.timeouts,
            nodes_marked_unhealthy: self.stats.nodes_marked_unhealthy,
            nodes_recovered: self.stats.nodes_recovered,
            average_response_time: self.stats.average_response_time.clone(),
        }
    }
}

} // verus!
