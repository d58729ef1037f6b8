//! Leadership of the cluster: elections by priority and identifier, the
//! leader's heartbeats and step-down, and the timeouts that start a new
//! election.
//!
//! The manager records its notifications in an outbox, in order; whoever
//! runs it delivers them.

use vstd::prelude::*;
use std::time::Duration;
use crate::types::{NodeId, ConsensusState};
use crate::table::Table;
use crate::topology::TopologyManager;
use crate::health::HealthMonitor;
use crate::leader_error::LeaderError;
use crate::leader_notifications::{LeaderNotification, LeadershipChange, ConsensusChange};
use crate::engine_state::bumped;
use crate::clock::{unix_time_millis, duration_from_millis, duration_as_millis, duration_nanos};
use crate::ids::{random_uuid_value, is_random_uuid};
use crate::text::{around_number, decimal_text};

verus! {

/// Settings of the leader manager.
#[derive(Debug, Clone)]
pub struct LeaderConfig {
    /// Duration between leadership heartbeats
    pub heartbeat_interval: Duration,
    /// Timeout for leadership election
    pub election_timeout: Duration,
    /// Maximum time without leader before triggering election
    pub leader_timeout: Duration,
    /// Minimum number of healthy nodes required for leadership
    pub min_healthy_nodes: usize,
    /// Enable automatic leadership failover
    pub auto_failover: bool,
    /// Leadership priority (higher = more likely to become leader)
    pub leadership_priority: u8,
}

impl Default for LeaderConfig {
    fn default() -> (r: LeaderConfig)
        ensures
            duration_nanos(r.heartbeat_interval) == 1_000_000_000,
            duration_nanos(r.election_timeout) == 5_000_000_000,
            duration_nanos(r.leader_timeout) == 3_000_000_000,
            r.min_healthy_nodes == 1,
            r.auto_failover,
            r.leadership_priority == 100,
    {
        LeaderConfig {
            heartbeat_interval: duration_from_millis(1000),
            election_timeout: duration_from_millis(5000),
            leader_timeout: duration_from_millis(3000),
            min_healthy_nodes: 1,
            auto_failover: true,
            leadership_priority: 100,
        }
    }
}

/// The leadership state as this node sees it.
#[derive(Debug, Clone, Copy, PartialEq, Eq, Structural)]
pub enum LeaderState {
    /// No leader currently elected
    NoLeader,
    /// This node is the leader
    Leader {
        /// When leadership was established
        since: u64,
        /// Current term/epoch
        term: u64,
    },
    /// Another node is the leader
    Follower {
        /// ID of the current leader
        leader_id: NodeId,
        /// When we last heard from the leader
        last_heartbeat: u64,
        /// Current term/epoch
        term: u64,
    },
    /// Leadership election in progress
    ElectionInProgress {
        /// Election ID, the value of its UUID
        election_id: u128,
        /// When election started
        started_at: u64,
        /// Current term/epoch
        term: u64,
    },
}

/// The term of `s`; no leader means term 0.
pub open spec fn term_of(s: LeaderState) -> u64 {
    match s {
        LeaderState::Leader { term, .. } => term,
        LeaderState::Follower { term, .. } => term,
        LeaderState::ElectionInProgress { term, .. } => term,
        LeaderState::NoLeader => 0,
    }
}

/// Counters of leadership.
#[derive(Debug, Default, Clone, Copy)]
pub struct LeadershipStats {
    pub elections_started: u64,
    pub elections_won: u64,
    pub elections_lost: u64,
    pub leadership_changes: u64,
    pub heartbeats_sent: u64,
    pub heartbeats_received: u64,
    pub failovers_triggered: u64,
}

/// The priority of `node` in an election held by `me` with priority
/// `mine`: its own priority for `me`, the default 100 for any other node.
pub open spec fn priority_of(node: NodeId, me: NodeId, mine: u8) -> u8 {
    if node == me { mine } else { 100 }
}

/// `a` beats `b` in an election: a higher priority, or the same priority
/// and a smaller identifier.
pub open spec fn beats(a: NodeId, b: NodeId, me: NodeId, mine: u8) -> bool {
    priority_of(a, me, mine) > priority_of(b, me, mine)
        || (priority_of(a, me, mine) == priority_of(b, me, mine) && a.0 < b.0)
}

/// The milliseconds of `d`, truncated to 64 bits.
pub open spec fn millis_of(d: Duration) -> u64 {
    (duration_nanos(d) / 1_000_000) as u64
}

/// `now` minus `then`, or 0 when `then` is later.
pub open spec fn since(now: u64, then: u64) -> u64 {
    if now >= then { (now - then) as u64 } else { 0 }
}

/// The election winner among `nodes` for the node `me` with priority
/// `mine`: the node with the highest priority, the smallest identifier
/// among equals.
pub fn determine_election_winner(nodes: &[NodeId], me: NodeId, mine: u8) -> (w: NodeId)
    requires
        nodes@.len() > 0,
    ensures
        nodes@.contains(w),
        forall|i: int| 0 <= i < nodes@.len() ==> !beats(#[trigger] nodes@[i], w, me, mine),
{
    let mut best = nodes[0];
    let mut best_priority: u8 = 0;
    let mut i: usize = 0;
    while i < nodes.len()
        invariant
            nodes@.len() > 0,
            i <= nodes@.len(),
            nodes@.contains(best),
            i == 0 ==> best == nodes@[0] && best_priority == 0,
            i > 0 ==> best_priority == priority_of(best, me, mine),
            forall|j: int| 0 <= j < i ==> !beats(#[trigger] nodes@[j], best, me, mine),
        decreases nodes@.len() - i,
    {
        let node = nodes[i];
        let priority = if node == me { mine } else { 100 };
        if priority > best_priority || (priority == best_priority && node.0 < best.0) {
            best = node;
            best_priority = priority;
        } else if i == 0 {
            best_priority = priority;
        }
        i = i + 1;
    }
    best
}

/// The notice that `node_id` is now in consensus state `state`, at `now`.
pub open spec fn state_change_notice(node_id: NodeId, state: ConsensusState, now: u64) -> LeaderNotification {
    LeaderNotification::Consensus(ConsensusChange::ConsensusStateChanged {
        node_id, old_state: ConsensusState::Idle, new_state: state, timestamp: now })
}

/// The leader manager of one node.
pub struct LeaderManager {
    config: LeaderConfig,
    node_id: NodeId,
    state: LeaderState,
    topology: TopologyManager,
    health_monitor: HealthMonitor,
    stats: LeadershipStats,
    consensus_state: Table<ConsensusState>,
    outbox: Vec<LeaderNotification>,
}

impl LeaderManager {
    /// The configuration.
    pub closed spec fn config_view(&self) -> LeaderConfig {
        self.config
    }

    /// This node.
    pub closed spec fn me(&self) -> NodeId {
        self.node_id
    }

    /// The health monitor.
    pub closed spec fn health_view(&self) -> HealthMonitor {
        self.health_monitor
    }

    /// The leadership state.
    pub closed spec fn state_view(&self) -> LeaderState {
        self.state
    }

    /// The cluster topology.
    pub closed spec fn topology_view(&self) -> TopologyManager {
        self.topology
    }

    /// The counters.
    pub closed spec fn stats_view(&self) -> LeadershipStats {
        self.stats
    }

    /// The consensus state of each node, by identifier.
    pub closed spec fn consensus_map(&self) -> Map<u128, ConsensusState> {
        self.consensus_state.map()
    }

    /// The notifications not yet taken, oldest first.
    pub closed spec fn outbox(&self) -> Seq<LeaderNotification> {
        self.outbox@
    }

    /// A manager for a fresh random node, without a leader, with an empty
    /// topology and no monitored node.
    pub fn new(config: LeaderConfig) -> (r: Result<LeaderManager, LeaderError>)
        ensures
            r matches Ok(m) && {
                &&& m.config_view() == config
                &&& m.state_view() == LeaderState::NoLeader
                &&& m.topology_view().wf()
                &&& m.topology_view().healthy_set() == Set::<NodeId>::empty()
                &&& m.consensus_map() == Map::<u128, ConsensusState>::empty()
                &&& m.outbox().len() == 0
                &&& is_random_uuid(m.me().0)
                &&& m.stats_view() == (LeadershipStats {
                    elections_started: 0,
                    elections_won: 0,
                    elections_lost: 0,
                    leadership_changes: 0,
                    heartbeats_sent: 0,
                    heartbeats_received: 0,
                    failovers_triggered: 0,
                })
            },
    {
        let topology = TopologyManager::new()?;
        let health_monitor = HealthMonitor::new()?;
        Ok(LeaderManager {
            config,
            node_id: NodeId::new(),
            state: LeaderState::NoLeader,
            topology,
            health_monitor,
            stats: LeadershipStats {
                elections_started: 0,
                elections_won: 0,
                elections_lost: 0,
                leadership_changes: 0,
                heartbeats_sent: 0,
                heartbeats_received: 0,
                failovers_triggered: 0,
            },
            consensus_state: Table::new(),
            outbox: Vec::new(),
        })
    }

    /// This node's identifier.
    pub fn node_id(&self) -> (r: NodeId)
        ensures
            r == self.me(),
    {
        self.node_id
    }

    /// Whether this node leads.
    pub fn is_leader(&self) -> (r: bool)
        ensures
            r == (self.state_view() is Leader),
    {
        matches!(self.state, LeaderState::Leader { .. })
    }

    /// The leadership state.
    pub fn get_state(&self) -> (r: LeaderState)
        ensures
            r == self.state_view(),
    {
        self.state
    }

    /// The leader: this node when it leads, the followed node when it
    /// follows, none otherwise.
    pub fn get_leader(&self) -> (r: Option<NodeId>)
        ensures
            r == match self.state_view() {
                LeaderState::Leader { .. } => Some(self.me()),
                LeaderState::Follower { leader_id, .. } => Some(leader_id),
                _ => None::<NodeId>,
            },
    {
        match self.state {
            LeaderState::Leader { .. } => Some(self.node_id),
            LeaderState::Follower { leader_id, .. } => Some(leader_id),
            _ => None,
        }
    }

    /// The current term.
    pub fn current_term(&self) -> (r: u64)
        ensures
            r == term_of(self.state_view()),
    {
        match self.state {
            LeaderState::Leader { term, .. } => term,
            LeaderState::Follower { term, .. } => term,
            LeaderState::ElectionInProgress { term, .. } => term,
            LeaderState::NoLeader => 0,
        }
    }

    /// The topology.
    pub fn topology(&self) -> (r: &TopologyManager)
        ensures
            *r == self.topology_view(),
    {
        &self.topology
    }

    /// The topology, to change.
    pub fn topology_mut(&mut self) -> (r: &mut TopologyManager)
        ensures
            *r == old(self).topology_view(),
            final(self).topology_view() == *final(r),
            final(self).config_view() == old(self).config_view(),
            final(self).me() == old(self).me(),
            final(self).state_view() == old(self).state_view(),
            final(self).stats_view() == old(self).stats_view(),
            final(self).consensus_map() == old(self).consensus_map(),
            final(self).outbox() == old(self).outbox(),
    {
        &mut self.topology
    }

    /// The health monitor, to change.
    pub fn health_monitor_mut(&mut self) -> (r: &mut HealthMonitor)
        ensures
            *r == old(self).health_view(),
            final(self).health_view() == *final(r),
            final(self).topology_view() == old(self).topology_view(),
            final(self).config_view() == old(self).config_view(),
            final(self).me() == old(self).me(),
            final(self).state_view() == old(self).state_view(),
            final(self).stats_view() == old(self).stats_view(),
            final(self).consensus_map() == old(self).consensus_map(),
            final(self).outbox() == old(self).outbox(),
    {
        &mut self.health_monitor
    }

    /// What holding election `election_id` at time `now` does to the
    /// manager `before`, giving `after` and the result `r` (see
    /// `trigger_election_at`).
    pub open spec fn election_outcome(before: LeaderManager, after: LeaderManager, r: Result<(), LeaderError>, election_id: u128, now: u64) -> bool {
        &&& after.config_view() == before.config_view()
        &&& after.me() == before.me()
        &&& after.topology_view() == before.topology_view()
        &&& after.consensus_map() == before.consensus_map()
        &&& after.stats_view().elections_started == bumped(before.stats_view().elections_started)
        &&& ({
            let term = (term_of(before.state_view()) + 1) as u64;
            let healthy = before.topology_view().healthy_set();
            let started = LeaderNotification::Leadership(LeadershipChange::ElectionStarted { election_id, term, timestamp: now });
            if healthy.len() < before.config_view().min_healthy_nodes {
                &&& r matches Err(LeaderError::ElectionFailed { reason }) && reason@ == "Insufficient healthy nodes: "@
                    + decimal_text(healthy.len()) + " < "@ + decimal_text(before.config_view().min_healthy_nodes as nat)
                &&& after.state_view() == (LeaderState::ElectionInProgress { election_id, started_at: now, term })
                &&& after.outbox() == before.outbox().push(started)
            } else {
                &&& r is Ok
                &&& exists|w: NodeId| {
                    &&& healthy.contains(w)
                    &&& forall|n: NodeId| healthy.contains(n) ==> !beats(n, w, before.me(), before.config_view().leadership_priority)
                    &&& if w == before.me() {
                        &&& after.state_view() == (LeaderState::Leader { since: now, term })
                        &&& after.outbox() == before.outbox().push(started).push(
                            LeaderNotification::Leadership(LeadershipChange::LeaderElected {
                                node_id: w, term, timestamp: now }))
                        &&& after.stats_view().elections_won == bumped(before.stats_view().elections_won)
                        &&& after.stats_view().leadership_changes == bumped(before.stats_view().leadership_changes)
                    } else {
                        &&& after.state_view() == (LeaderState::Follower { leader_id: w, last_heartbeat: now, term })
                        &&& after.outbox() == before.outbox().push(started)
                        &&& after.stats_view().elections_lost == bumped(before.stats_view().elections_lost)
                    }
                }
            }
        })
    }

    /// Starts election `election_id` at time `now` for the next term and
    /// holds it among the healthy nodes of the topology: with fewer than
    /// the configured minimum it fails (the election stays in progress),
    /// otherwise the node with the highest priority, the smallest
    /// identifier among equals, wins, and this node becomes leader or
    /// follower.
    pub fn trigger_election_at(&mut self, election_id: u128, now: u64) -> (r: Result<(), LeaderError>)
        requires
            term_of(old(self).state_view()) < u64::MAX,
            old(self).config_view().min_healthy_nodes > 0 || old(self).topology_view().healthy_set().len() > 0,
        ensures
            LeaderManager::election_outcome(*old(self), *final(self), r, election_id, now),
    {
        let term = self.current_term() + 1;
        self.state = LeaderState::ElectionInProgress { election_id, started_at: now, term };
        self.stats.elections_started = self.stats.elections_started.wrapping_add(1);
        self.outbox.push(LeaderNotification::election_started(election_id, term, now));
        let healthy = match self.topology.get_healthy_nodes() {
            Ok(v) => v,
            Err(e) => return Err(e),
        };
        proof {
            healthy@.unique_seq_to_set();
        }
        if healthy.len() < self.config.min_healthy_nodes {
            let head = around_number("Insufficient healthy nodes: ", healthy.len() as u64, " < ");
            let reason = around_number(head.as_str(), self.config.min_healthy_nodes as u64, "");
            proof {
                reveal_strlit("");
            }
            return Err(LeaderError::ElectionFailed { reason });
        }
        let winner = determine_election_winner(healthy.as_slice(), self.node_id, self.config.leadership_priority);
        proof {
            assert forall|n: NodeId| #[trigger] self.topology.healthy_set().contains(n)
                implies !beats(n, winner, self.node_id, self.config.leadership_priority) by {
                assert(healthy@.to_set().contains(n));
                let j = choose|j: int| 0 <= j < healthy@.len() && healthy@[j] == n;
            }
            assert(healthy@.to_set().contains(winner));
        }
        if winner == self.node_id {
            self.state = LeaderState::Leader { since: now, term };
            self.stats.elections_won = self.stats.elections_won.wrapping_add(1);
            self.stats.leadership_changes = self.stats.leadership_changes.wrapping_add(1);
            self.outbox.push(LeaderNotification::leadership_gained(self.node_id, term, now));
        } else {
            self.state = LeaderState::Follower { leader_id: winner, last_heartbeat: now, term };
            self.stats.elections_lost = self.stats.elections_lost.wrapping_add(1);
        }
        Ok(())
    }

    /// Starts and holds a new election, with a fresh random identifier, at
    /// the present time.
    pub fn trigger_election(&mut self) -> (r: Result<(), LeaderError>)
        requires
            term_of(old(self).state_view()) < u64::MAX,
            old(self).config_view().min_healthy_nodes > 0 || old(self).topology_view().healthy_set().len() > 0,
        ensures
            final(self).me() == old(self).me(),
            final(self).topology_view() == old(self).topology_view(),
            old(self).topology_view().healthy_set().len() < old(self).config_view().min_healthy_nodes ==> {
                &&& r is Err
                &&& final(self).state_view() is ElectionInProgress
            },
            old(self).topology_view().healthy_set().len() >= old(self).config_view().min_healthy_nodes ==> {
                &&& r is Ok
                &&& (final(self).state_view() is Leader || final(self).state_view() is Follower)
            },
            term_of(final(self).state_view()) == term_of(old(self).state_view()) + 1,
            exists|election_id: u128, now: u64| is_random_uuid(election_id)
                && #[trigger] LeaderManager::election_outcome(*old(self), *final(self), r, election_id, now),
    {
        let election_id = random_uuid_value();
        let now = unix_time_millis();
        let r = self.trigger_election_at(election_id, now);
        assert(LeaderManager::election_outcome(*old(self), *self, r, election_id, now));
        r
    }

    /// What stepping down at time `now` does to the manager `before`,
    /// giving `after` (see `step_down_at`).
    pub open spec fn stepped_down(before: LeaderManager, after: LeaderManager, now: u64) -> bool {
        &&& after.config_view() == before.config_view()
        &&& after.me() == before.me()
        &&& after.topology_view() == before.topology_view()
        &&& after.consensus_map() == before.consensus_map()
        &&& match before.state_view() {
            LeaderState::Leader { term, .. } => {
                &&& after.state_view() == LeaderState::NoLeader
                &&& after.stats_view() == (LeadershipStats {
                    leadership_changes: bumped(before.stats_view().leadership_changes),
                    ..before.stats_view()
                })
                &&& after.outbox().len() == before.outbox().len() + 1
                &&& after.outbox().drop_last() == before.outbox()
                &&& after.outbox().last() matches LeaderNotification::Leadership(
                    LeadershipChange::LeaderSteppedDown { node_id, term: t, reason, timestamp })
                    && node_id == before.me() && t == term && timestamp == now && reason@ == "Stepped down gracefully"@
            },
            _ => {
                &&& after.state_view() == before.state_view()
                &&& after.stats_view() == before.stats_view()
                &&& after.outbox() == before.outbox()
            },
        }
    }

    /// When this node leads, gives up leadership at time `now`: it records
    /// the step-down and has no leader. Otherwise nothing changes.
    pub fn step_down_at(&mut self, now: u64) -> (r: Result<(), LeaderError>)
        ensures
            r is Ok,
            LeaderManager::stepped_down(*old(self), *final(self), now),
    {
        if let LeaderState::Leader { term, .. } = self.state {
            self.outbox.push(LeaderNotification::leadership_lost(self.node_id, term, now));
            proof {
                assert(self.outbox@.drop_last() =~= old(self).outbox@);
            }
            self.state = LeaderState::NoLeader;
            self.stats.leadership_changes = self.stats.leadership_changes.wrapping_add(1);
        }
        Ok(())
    }

    /// Gives up leadership as `step_down_at` does, stamped with the present
    /// time, which the contract does not know.
    pub fn step_down(&mut self) -> (r: Result<(), LeaderError>)
        ensures
            r is Ok,
            exists|now: u64| #[trigger] LeaderManager::stepped_down(*old(self), *final(self), now),
    {
        let now = unix_time_millis();
        let r = self.step_down_at(now);
        assert(LeaderManager::stepped_down(*old(self), *self, now));
        r
    }

    /// Records the consensus state of `node_id` and a notification of it
    /// at time `now`.
    pub fn update_consensus_state_at(&mut self, node_id: NodeId, state: ConsensusState, now: u64) -> (r: Result<(), LeaderError>)
        ensures
            r is Ok,
            final(self).config_view() == old(self).config_view(),
            final(self).me() == old(self).me(),
            final(self).state_view() == old(self).state_view(),
            final(self).topology_view() == old(self).topology_view(),
            final(self).stats_view() == old(self).stats_view(),
            final(self).consensus_map() == old(self).consensus_map().insert(node_id.0, state),
            final(self).outbox() == old(self).outbox().push(LeaderNotification::Consensus(
                ConsensusChange::ConsensusStateChanged {
                    node_id, old_state: ConsensusState::Idle, new_state: state, timestamp: now })),
    {
        self.consensus_state.insert(node_id.0, state);
        self.outbox.push(LeaderNotification::consensus_state_changed(node_id, state, now));
        Ok(())
    }

    /// Records the consensus state of `node_id`, stamped with the present
    /// time.
    pub fn update_consensus_state(&mut self, node_id: NodeId, state: ConsensusState) -> (r: Result<(), LeaderError>)
        ensures
            r is Ok,
            final(self).config_view() == old(self).config_view(),
            final(self).me() == old(self).me(),
            final(self).state_view() == old(self).state_view(),
            final(self).topology_view() == old(self).topology_view(),
            final(self).stats_view() == old(self).stats_view(),
            final(self).consensus_map() == old(self).consensus_map().insert(node_id.0, state),
            exists|now: u64| final(self).outbox() == old(self).outbox().push(#[trigger] state_change_notice(node_id, state, now)),
    {
        let now = unix_time_millis();
        let r = self.update_consensus_state_at(node_id, state, now);
        assert(self.outbox() == old(self).outbox().push(state_change_notice(node_id, state, now)));
        r
    }

    /// The consensus state of every node, in the order first recorded.
    pub fn get_consensus_states(&self) -> (r: Vec<(NodeId, ConsensusState)>)
        ensures
            forall|k: u128, s: ConsensusState| r@.contains((NodeId(k), s)) <==>
                (self.consensus_map().contains_key(k) && self.consensus_map()[k] == s),
    {
        let n = self.consensus_state.len();
        let ghost order = self.consensus_state.entries();
        let mut out: Vec<(NodeId, ConsensusState)> = Vec::new();
        let mut i: usize = 0;
        while i < n
            invariant
                n == order.len(),
                order == self.consensus_state.entries(),
                crate::table::keys_unique(order),
                i <= n,
                out@.len() == i,
                forall|j: int| 0 <= j < i ==> #[trigger] out@[j] == (NodeId(order[j].0), order[j].1),
            decreases n - i,
        {
            out.push((NodeId(self.consensus_state.key_at(i)), *self.consensus_state.value_at(i)));
            i = i + 1;
        }
        proof {
            assert forall|k: u128, s: ConsensusState| out@.contains((NodeId(k), s)) <==>
                (self.consensus_map().contains_key(k) && self.consensus_map()[k] == s) by {
                crate::table::lemma_entries_dom(order, k);
                if out@.contains((NodeId(k), s)) {
                    let j = choose|j: int| 0 <= j < out@.len() && out@[j] == (NodeId(k), s);
                    crate::table::lemma_entries_at(order, j);
                }
                if self.consensus_map().contains_key(k) && self.consensus_map()[k] == s {
                    let j = choose|j: int| 0 <= j < order.len() && order[j].0 == k;
                    crate::table::lemma_entries_at(order, j);
                    assert(out@[j] == (NodeId(k), s));
                }
            }
        }
        out
    }

    /// The counters.
    pub fn get_stats(&self) -> (r: LeadershipStats)
        ensures
            r == self.stats_view(),
    {
        self.stats
    }

    /// One beat of the heartbeat timer at time `now`: a leader records a
    /// heartbeat of its term. Returns whether it did.
    pub fn heartbeat_tick(&mut self, now: u64) -> (sent: bool)
        ensures
            sent == (old(self).state_view() is Leader),
            final(self).state_view() == old(self).state_view(),
            final(self).topology_view() == old(self).topology_view(),
            final(self).consensus_map() == old(self).consensus_map(),
            sent ==> final(self).outbox() == old(self).outbox().push(LeaderNotification::Leadership(
                LeadershipChange::LeaderHeartbeat {
                    leader_id: old(self).me(), term: term_of(old(self).state_view()), timestamp: now })),
            sent ==> final(self).stats_view().heartbeats_sent == bumped(old(self).stats_view().heartbeats_sent),
            !sent ==> final(self).outbox() == old(self).outbox() && final(self).stats_view() == old(self).stats_view(),
    {
        if let LeaderState::Leader { term, .. } = self.state {
            self.outbox.push(LeaderNotification::heartbeat(self.node_id, term, now));
            self.stats.heartbeats_sent = self.stats.heartbeats_sent.wrapping_add(1);
            true
        } else {
            false
        }
    }

    /// Whether at time `now` a new election is due: a follower has not
    /// heard from its leader for longer than the leader timeout, or an
    /// election has run for longer than the election timeout.
    pub fn election_due(&self, now: u64) -> (r: bool)
        ensures
            r == match self.state_view() {
                LeaderState::Follower { last_heartbeat, .. } =>
                    since(now, last_heartbeat) > millis_of(self.config_view().leader_timeout),
                LeaderState::ElectionInProgress { started_at, .. } =>
                    since(now, started_at) > millis_of(self.config_view().election_timeout),
                _ => false,
            },
    {
        match self.state {
            LeaderState::Follower { last_heartbeat, .. } =>
                now.saturating_sub(last_heartbeat) > duration_as_millis(&self.config.leader_timeout) as u64,
            LeaderState::ElectionInProgress { started_at, .. } =>
                now.saturating_sub(started_at) > duration_as_millis(&self.config.election_timeout) as u64,
            _ => false,
        }
    }

    /// Hands out the recorded notifications, oldest first.
    pub fn take_notifications(&mut self) -> (r: Vec<LeaderNotification>)
        ensures
            r@ == old(self).outbox(),
            final(self).outbox().len() == 0,
            final(self).state_view() == old(self).state_view(),
            final(self).topology_view() == old(self).topology_view(),
            final(self).stats_view() == old(self).stats_view(),
            final(self).consensus_map() == old(self).consensus_map(),
            final(self).me() == old(self).me(),
            final(self).config_view() == old(self).config_view(),
    {
        let mut out: Vec<LeaderNotification> = Vec::new();
        std::mem::swap(&mut out, &mut self.outbox);
        out
    }
}

} // verus!
