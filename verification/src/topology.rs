//! Cluster membership: the known nodes, which of them are healthy, the
//! topology version and the quorum.

use vstd::prelude::*;
use std::time::Duration;
use crate::types::NodeId;
use crate::table::Table;
use crate::node_set::NodeSet;
use crate::leader_error::LeaderError;
use crate::engine_state::bumped;
use crate::clock::{unix_time_millis, duration_from_secs, duration_as_millis, duration_nanos};
use crate::text::{around_number, decimal_text};

verus! {

/// The node timeout in whole milliseconds, truncated to 64 bits.
pub open spec fn timeout_millis(config: TopologyConfig) -> u64 {
    (duration_nanos(config.node_timeout) / 1_000_000) as u64
}

/// A node last seen at `last_seen` is stale at `now`: more than
/// `timeout_ms` milliseconds have passed (none when `now` is earlier).
pub open spec fn stale(now: u64, last_seen: u64, timeout_ms: u64) -> bool {
    (if now >= last_seen { now - last_seen } else { 0 }) > timeout_ms
}

/// The record `info` of a node seen at `now`.
pub open spec fn seen_at(info: NodeInfo, now: u64) -> NodeInfo {
    NodeInfo { last_seen: now, ..info }
}

/// The network address of a node: an IP address, as its bits in network
/// order, and a port.
#[derive(Debug, Clone, Copy, PartialEq, Eq, Structural)]
pub enum NodeAddress {
    /// An IPv4 address and port.
    V4 { ipv4: u32, port: u16 },
    /// An IPv6 address and port, with its flow information and scope.
    V6 { ipv6: u128, port: u16, flowinfo: u32, scope_id: u32 },
}

/// Role of a node in the cluster.
#[derive(Debug, Clone, Copy, PartialEq, Eq, Structural)]
pub enum NodeRole {
    /// Full consensus participant
    Participant,
    /// Observer node (read-only)
    Observer,
    /// Learner node (catching up)
    Learner,
    /// Standby node (backup)
    Standby,
}

/// What is known of a cluster node.
#[derive(Debug)]
pub struct NodeInfo {
    /// Unique node identifier
    pub node_id: NodeId,
    /// Network address for communication
    pub address: NodeAddress,
    /// Node role in the cluster
    pub role: NodeRole,
    /// Node capabilities and metadata, as name and value
    pub metadata: Vec<(String, String)>,
    /// When the node joined the cluster
    pub joined_at: u64,
    /// Last time we heard from this node
    pub last_seen: u64,
    /// Node version information
    pub version: String,
}

/// A copy of `v`.
fn copy_pairs(v: &Vec<(String, String)>) -> (r: Vec<(String, String)>)
    ensures
        r@ == v@,
{
    let mut out: Vec<(String, String)> = Vec::new();
    let mut i: usize = 0;
    while i < v.len()
        invariant
            i <= v@.len(),
            out@ == v@.take(i as int),
        decreases v@.len() - i,
    {
        let (a, b) = (v[i].0.clone(), v[i].1.clone());
        out.push((a, b));
        i = i + 1;
        assert(out@ =~= v@.take(i as int));
    }
    assert(v@.take(v@.len() as int) =~= v@);
    out
}

/// `a` and `b` hold the same information, the metadata compared entry by
/// entry.
pub open spec fn same_info(a: NodeInfo, b: NodeInfo) -> bool {
    &&& a.node_id == b.node_id
    &&& a.address == b.address
    &&& a.role == b.role
    &&& a.metadata@ == b.metadata@
    &&& a.joined_at == b.joined_at
    &&& a.last_seen == b.last_seen
    &&& a.version == b.version
}

impl Clone for NodeInfo {
    fn clone(&self) -> (r: NodeInfo)
        ensures
            same_info(r, *self),
    {
        NodeInfo {
            node_id: self.node_id,
            address: self.address,
            role: self.role,
            metadata: copy_pairs(&self.metadata),
            joined_at: self.joined_at,
            last_seen: self.last_seen,
            version: self.version.clone(),
        }
    }
}

/// The cluster's membership at one moment.
#[derive(Debug, Clone)]
pub struct ClusterTopology {
    /// All known nodes in the cluster, in the order they joined
    pub nodes: Vec<NodeInfo>,
    /// Nodes currently considered healthy
    pub healthy_nodes: Vec<NodeId>,
    /// Cluster configuration version
    pub version: u64,
    /// When this topology was last updated
    pub updated_at: u64,
}

/// Settings of topology management.
#[derive(Debug, Clone)]
pub struct TopologyConfig {
    /// How often to check node health
    pub health_check_interval: Duration,
    /// Time before considering a node unhealthy
    pub node_timeout: Duration,
    /// Maximum number of nodes in cluster
    pub max_nodes: usize,
    /// Require minimum quorum size
    pub min_quorum_size: usize,
}

impl Default for TopologyConfig {
    fn default() -> (r: TopologyConfig)
        ensures
            duration_nanos(r.health_check_interval) == 5_000_000_000,
            duration_nanos(r.node_timeout) == 30_000_000_000,
            r.max_nodes == 100,
            r.min_quorum_size == 3,
    {
        TopologyConfig {
            health_check_interval: duration_from_secs(5),
            node_timeout: duration_from_secs(30),
            max_nodes: 100,
            min_quorum_size: 3,
        }
    }
}

/// Counters of topology management.
#[derive(Debug, Default, Clone, Copy)]
pub struct TopologyStats {
    pub nodes_added: u64,
    pub nodes_removed: u64,
    pub health_checks: u64,
    pub topology_changes: u64,
    pub quorum_losses: u64,
}

/// The membership of the cluster and the health of its nodes.
pub struct TopologyManager {
    config: TopologyConfig,
    nodes: Table<NodeInfo>,
    healthy: NodeSet,
    version: u64,
    updated_at: u64,
    stats: TopologyStats,
}

impl TopologyManager {
    /// The known nodes, by identifier.
    pub closed spec fn node_map(&self) -> Map<u128, NodeInfo> {
        self.nodes.map()
    }

    /// The known nodes' identifiers, in the order they joined.
    pub closed spec fn node_order(&self) -> Seq<(u128, NodeInfo)> {
        self.nodes.entries()
    }

    /// The healthy nodes.
    pub closed spec fn healthy_set(&self) -> Set<NodeId> {
        self.healthy.set()
    }

    /// The topology version.
    pub closed spec fn version(&self) -> u64 {
        self.version
    }

    /// The configuration.
    pub closed spec fn config_view(&self) -> TopologyConfig {
        self.config
    }

    /// The counters.
    pub closed spec fn stats_view(&self) -> TopologyStats {
        self.stats
    }

    /// Every healthy node is a known node.
    pub open spec fn wf(&self) -> bool {
        forall|n: NodeId| #[trigger] self.healthy_set().contains(n) ==> self.node_map().contains_key(n.0)
    }

    /// An empty topology with `config`, stamped with the present time.
    pub fn with_config(config: TopologyConfig) -> (r: Result<TopologyManager, LeaderError>)
        ensures
            r matches Ok(m) && {
                &&& m.wf()
                &&& m.config_view() == config
                &&& m.node_map() == Map::<u128, NodeInfo>::empty()
                &&& m.healthy_set() == Set::<NodeId>::empty()
                &&& m.version() == 0
                &&& m.stats_view() == TopologyStats { nodes_added: 0, nodes_removed: 0, health_checks: 0, topology_changes: 0, quorum_losses: 0 }
            },
    {
        let m = TopologyManager {
            config,
            nodes: Table::new(),
            healthy: NodeSet::new(),
            version: 0,
            updated_at: unix_time_millis(),
            stats: TopologyStats { nodes_added: 0, nodes_removed: 0, health_checks: 0, topology_changes: 0, quorum_losses: 0 },
        };
        Ok(m)
    }

    /// An empty topology with the default configuration.
    pub fn new() -> (r: Result<TopologyManager, LeaderError>)
        ensures
            r matches Ok(m) && {
                &&& m.wf()
                &&& m.config_view().max_nodes == 100
                &&& m.config_view().min_quorum_size == 3
                &&& m.node_map() == Map::<u128, NodeInfo>::empty()
                &&& m.healthy_set() == Set::<NodeId>::empty()
                &&& m.version() == 0
            },
    {
        TopologyManager::with_config(TopologyConfig::default())
    }

    /// Adds `node_info` (replacing what was known of its node) and counts
    /// it healthy; refused with a topology error when the topology already
    /// holds the maximum number of nodes.
    pub fn add_node(&mut self, node_info: NodeInfo) -> (r: Result<(), LeaderError>)
        requires
            old(self).wf(),
        ensures
            final(self).wf(),
            final(self).config_view() == old(self).config_view(),
            old(self).node_map().len() >= old(self).config_view().max_nodes ==> {
                &&& r matches Err(LeaderError::TopologyError { reason })
                    && reason@ == "Maximum nodes limit reached: "@ + decimal_text(old(self).config_view().max_nodes as nat)
                &&& final(self).node_map() == old(self).node_map()
                &&& final(self).healthy_set() == old(self).healthy_set()
                &&& final(self).version() == old(self).version()
                &&& final(self).stats_view() == old(self).stats_view()
            },
            old(self).node_map().len() < old(self).config_view().max_nodes ==> {
                &&& r is Ok
                &&& final(self).node_map() == old(self).node_map().insert(node_info.node_id.0, node_info)
                &&& final(self).healthy_set() == old(self).healthy_set().insert(node_info.node_id)
                &&& final(self).version() == bumped(old(self).version())
                &&& final(self).stats_view().nodes_added == bumped(old(self).stats_view().nodes_added)
                &&& final(self).stats_view().topology_changes == bumped(old(self).stats_view().topology_changes)
                &&& final(self).stats_view().nodes_removed == old(self).stats_view().nodes_removed
                &&& final(self).stats_view().health_checks == old(self).stats_view().health_checks
                &&& final(self).stats_view().quorum_losses == old(self).stats_view().quorum_losses
            },
    {
        let n = self.nodes.len();
        proof { crate::table::lemma_entries_len(self.nodes.entries()); }
        if n >= self.config.max_nodes {
            let reason = around_number("Maximum nodes limit reached: ", self.config.max_nodes as u64, "");
            proof {
                reveal_strlit("");
                assert(reason@ =~= "Maximum nodes limit reached: "@ + decimal_text(self.config.max_nodes as nat));
            }
            return Err(LeaderError::TopologyError { reason });
        }
        let node_id = node_info.node_id;
        self.nodes.insert(node_id.0, node_info);
        self.healthy.insert(node_id);
        self.version = self.version.wrapping_add(1);
        self.updated_at = unix_time_millis();
        self.stats.nodes_added = self.stats.nodes_added.wrapping_add(1);
        self.stats.topology_changes = self.stats.topology_changes.wrapping_add(1);
        assert forall|m: NodeId| #[trigger] self.healthy_set().contains(m) implies self.node_map().contains_key(m.0) by {
            if m != node_id {
                assert(old(self).healthy_set().contains(m));
            }
        }
        Ok(())
    }

    /// Removes `node_id` and its health; when it was known, the version
    /// moves on, the removal is counted and, when fewer healthy nodes than
    /// the quorum remain, a quorum loss is counted.
    pub fn remove_node(&mut self, node_id: NodeId) -> (r: Result<(), LeaderError>)
        requires
            old(self).wf(),
        ensures
            r is Ok,
            final(self).wf(),
            final(self).config_view() == old(self).config_view(),
            final(self).node_map() == old(self).node_map().remove(node_id.0),
            old(self).node_map().contains_key(node_id.0) ==> {
                &&& final(self).healthy_set() == old(self).healthy_set().remove(node_id)
                &&& final(self).version() == bumped(old(self).version())
                &&& final(self).stats_view().nodes_removed == bumped(old(self).stats_view().nodes_removed)
                &&& final(self).stats_view().topology_changes == bumped(old(self).stats_view().topology_changes)
                &&& final(self).stats_view().quorum_losses == if final(self).healthy_set().len() < old(self).config_view().min_quorum_size {
                    bumped(old(self).stats_view().quorum_losses)
                } else {
                    old(self).stats_view().quorum_losses
                }
                &&& final(self).stats_view().nodes_added == old(self).stats_view().nodes_added
                &&& final(self).stats_view().health_checks == old(self).stats_view().health_checks
            },
            !old(self).node_map().contains_key(node_id.0) ==> {
                &&& final(self).healthy_set() == old(self).healthy_set()
                &&& final(self).version() == old(self).version()
                &&& final(self).stats_view() == old(self).stats_view()
            },
    {
        match self.nodes.remove(node_id.0) {
            Some(_) => {
                self.healthy.remove(node_id);
                self.version = self.version.wrapping_add(1);
                self.updated_at = unix_time_millis();
                self.stats.nodes_removed = self.stats.nodes_removed.wrapping_add(1);
                self.stats.topology_changes = self.stats.topology_changes.wrapping_add(1);
                if self.healthy.len() < self.config.min_quorum_size {
                    self.stats.quorum_losses = self.stats.quorum_losses.wrapping_add(1);
                }
                assert forall|m: NodeId| #[trigger] self.healthy_set().contains(m) implies self.node_map().contains_key(m.0) by {
                    assert(old(self).healthy_set().contains(m));
                }
            },
            None => {
                proof {
                    if old(self).healthy_set().contains(node_id) {
                        assert(old(self).node_map().contains_key(node_id.0));
                    }
                    assert(self.healthy_set().remove(node_id) =~= self.healthy_set());
                }
            },
        }
        Ok(())
    }

    /// Records a health report of `node_id` at time `now`. For a known node
    /// the last-seen time is `now`; a change between healthy and unhealthy
    /// moves the version on, and a node turning unhealthy with fewer healthy
    /// nodes than the quorum left counts a quorum loss. Every report is
    /// counted.
    pub fn update_node_health_at(&mut self, node_id: NodeId, is_healthy: bool, now: u64) -> (r: Result<(), LeaderError>)
        requires
            old(self).wf(),
        ensures
            r is Ok,
            final(self).wf(),
            final(self).config_view() == old(self).config_view(),
            final(self).node_map().dom() == old(self).node_map().dom(),
            forall|k: u128| #[trigger] final(self).node_map().contains_key(k) && k != node_id.0
                ==> final(self).node_map()[k] == old(self).node_map()[k],
            old(self).node_map().contains_key(node_id.0) ==> final(self).node_map()[node_id.0]
                == (NodeInfo { last_seen: now, ..old(self).node_map()[node_id.0] }),
            final(self).stats_view().health_checks == bumped(old(self).stats_view().health_checks),
            final(self).stats_view().nodes_added == old(self).stats_view().nodes_added,
            final(self).stats_view().nodes_removed == old(self).stats_view().nodes_removed,
            final(self).stats_view().topology_changes == old(self).stats_view().topology_changes,
            ({
                let known = old(self).node_map().contains_key(node_id.0);
                let was = old(self).healthy_set().contains(node_id);
                if known && is_healthy && !was {
                    &&& final(self).healthy_set() == old(self).healthy_set().insert(node_id)
                    &&& final(self).version() == bumped(old(self).version())
                    &&& final(self).stats_view().quorum_losses == old(self).stats_view().quorum_losses
                } else if known && !is_healthy && was {
                    &&& final(self).healthy_set() == old(self).healthy_set().remove(node_id)
                    &&& final(self).version() == bumped(old(self).version())
                    &&& final(self).stats_view().quorum_losses == if final(self).healthy_set().len() < old(self).config_view().min_quorum_size {
                        bumped(old(self).stats_view().quorum_losses)
                    } else {
                        old(self).stats_view().quorum_losses
                    }
                } else {
                    &&& final(self).healthy_set() == old(self).healthy_set()
                    &&& final(self).version() == old(self).version()
                    &&& final(self).stats_view().quorum_losses == old(self).stats_view().quorum_losses
                }
            }),
    {
        match self.nodes.remove(node_id.0) {
            Some(info) => {
                let mut updated = info;
                updated.last_seen = now;
                self.nodes.insert(node_id.0, updated);
                proof {
                    assert(self.nodes.map() =~= old(self).nodes.map().insert(node_id.0, updated));
                }
                let was_healthy = self.healthy.contains(node_id);
                if is_healthy && !was_healthy {
                    self.healthy.insert(node_id);
                    self.version = self.version.wrapping_add(1);
                    self.updated_at = unix_time_millis();
                } else if !is_healthy && was_healthy {
                    self.healthy.remove(node_id);
                    self.version = self.version.wrapping_add(1);
                    self.updated_at = unix_time_millis();
                    if self.healthy.len() < self.config.min_quorum_size {
                        self.stats.quorum_losses = self.stats.quorum_losses.wrapping_add(1);
                    }
                }
            },
            None => {},
        }
        self.stats.health_checks = self.stats.health_checks.wrapping_add(1);
        assert forall|m: NodeId| #[trigger] self.healthy_set().contains(m) implies self.node_map().contains_key(m.0) by {
            if m != node_id {
                assert(old(self).healthy_set().contains(m));
            } else if !old(self).node_map().contains_key(m.0) {
                assert(!old(self).healthy_set().contains(m));
                assert(self.healthy_set() == old(self).healthy_set());
            }
        }
        assert(self.wf());
        Ok(())
    }

    /// Records a health report of `node_id` at the present time: as
    /// `update_node_health_at` does, with the time read from the clock, which
    /// is not known to the contract.
    pub fn update_node_health(&mut self, node_id: NodeId, is_healthy: bool) -> (r: Result<(), LeaderError>)
        requires
            old(self).wf(),
        ensures
            r is Ok,
            final(self).wf(),
            final(self).config_view() == old(self).config_view(),
            final(self).node_map().dom() == old(self).node_map().dom(),
            forall|k: u128| #[trigger] final(self).node_map().contains_key(k) && k != node_id.0
                ==> final(self).node_map()[k] == old(self).node_map()[k],
            old(self).node_map().contains_key(node_id.0) ==> exists|now: u64| final(self).node_map()[node_id.0]
                == #[trigger] seen_at(old(self).node_map()[node_id.0], now),
            final(self).stats_view().health_checks == bumped(old(self).stats_view().health_checks),
            final(self).stats_view().nodes_added == old(self).stats_view().nodes_added,
            final(self).stats_view().nodes_removed == old(self).stats_view().nodes_removed,
            final(self).stats_view().topology_changes == old(self).stats_view().topology_changes,
            ({
                let known = old(self).node_map().contains_key(node_id.0);
                let was = old(self).healthy_set().contains(node_id);
                if known && is_healthy && !was {
                    &&& final(self).healthy_set() == old(self).healthy_set().insert(node_id)
                    &&& final(self).version() == bumped(old(self).version())
                    &&& final(self).stats_view().quorum_losses == old(self).stats_view().quorum_losses
                } else if known && !is_healthy && was {
                    &&& final(self).healthy_set() == old(self).healthy_set().remove(node_id)
                    &&& final(self).version() == bumped(old(self).version())
                    &&& final(self).stats_view().quorum_losses == if final(self).healthy_set().len() < old(self).config_view().min_quorum_size {
                        bumped(old(self).stats_view().quorum_losses)
                    } else {
                        old(self).stats_view().quorum_losses
                    }
                } else {
                    &&& final(self).healthy_set() == old(self).healthy_set()
                    &&& final(self).version() == old(self).version()
                    &&& final(self).stats_view().quorum_losses == old(self).stats_view().quorum_losses
                }
            }),
    {
        let now = unix_time_millis();
        let r = self.update_node_health_at(node_id, is_healthy, now);
        proof {
            if old(self).node_map().contains_key(node_id.0) {
                assert(self.node_map()[node_id.0] == seen_at(old(self).node_map()[node_id.0], now));
            }
        }
        r
    }

    /// The membership now.
    pub fn get_topology(&self) -> (r: ClusterTopology)
        ensures
            r.nodes@.len() == self.node_order().len(),
            forall|i: int| 0 <= i < r.nodes@.len() ==> same_info(#[trigger] r.nodes@[i], self.node_order()[i].1),
            r.healthy_nodes@.to_set() == self.healthy_set(),
            r.healthy_nodes@.no_duplicates(),
            r.version == self.version(),
    {
        let n = self.nodes.len();
        let mut nodes: Vec<NodeInfo> = Vec::new();
        let mut i: usize = 0;
        while i < n
            invariant
                n == self.node_order().len(),
                i <= n,
                nodes@.len() == i,
                forall|j: int| 0 <= j < i ==> same_info(#[trigger] nodes@[j], self.node_order()[j].1),
            decreases n - i,
        {
            nodes.push(self.nodes.value_at(i).clone());
            i = i + 1;
        }
        ClusterTopology { nodes, healthy_nodes: self.healthy.to_vec(), version: self.version, updated_at: self.updated_at }
    }

    /// The healthy nodes.
    pub fn get_healthy_nodes(&self) -> (r: Result<Vec<NodeId>, LeaderError>)
        ensures
            r matches Ok(v) && v@.to_set() == self.healthy_set() && v@.no_duplicates(),
    {
        Ok(self.healthy.to_vec())
    }

    /// All known nodes, in the order they joined.
    pub fn get_all_nodes(&self) -> (r: Vec<NodeId>)
        ensures
            r@.len() == self.node_order().len(),
            forall|i: int| 0 <= i < r@.len() ==> (#[trigger] r@[i]).0 == self.node_order()[i].0,
            forall|k: u128| self.node_map().contains_key(k) <==> r@.contains(NodeId(k)),
    {
        let n = self.nodes.len();
        let mut out: Vec<NodeId> = Vec::new();
        let mut i: usize = 0;
        while i < n
            invariant
                n == self.node_order().len(),
                i <= n,
                out@.len() == i,
                forall|j: int| 0 <= j < i ==> (#[trigger] out@[j]).0 == self.node_order()[j].0,
            decreases n - i,
        {
            out.push(NodeId(self.nodes.key_at(i)));
            i = i + 1;
        }
        proof {
            assert forall|k: u128| self.node_map().contains_key(k) <==> out@.contains(NodeId(k)) by {
                crate::table::lemma_entries_dom(self.node_order(), k);
                if self.node_map().contains_key(k) {
                    let j = choose|j: int| 0 <= j < self.node_order().len() && self.node_order()[j].0 == k;
                    assert(out@[j] == NodeId(k));
                }
                if out@.contains(NodeId(k)) {
                    let j = choose|j: int| 0 <= j < out@.len() && out@[j] == NodeId(k);
                    assert(self.node_order()[j].0 == k);
                }
            }
        }
        out
    }

    /// What is known of `node_id`.
    pub fn get_node_info(&self, node_id: NodeId) -> (r: Option<NodeInfo>)
        ensures
            self.node_map().contains_key(node_id.0) ==> (r matches Some(info) && same_info(info, self.node_map()[node_id.0])),
            !self.node_map().contains_key(node_id.0) ==> r is None,
    {
        match self.nodes.get(node_id.0) {
            Some(info) => Some(info.clone()),
            None => None,
        }
    }

    /// Whether at least the quorum's number of nodes is healthy.
    pub fn has_quorum(&self) -> (r: bool)
        ensures
            r == (self.healthy_set().len() >= self.config_view().min_quorum_size),
    {
        self.healthy.len() >= self.config.min_quorum_size
    }

    /// Number of known nodes.
    pub fn cluster_size(&self) -> (r: usize)
        ensures
            r == self.node_map().len(),
    {
        let n = self.nodes.len();
        proof { crate::table::lemma_entries_len(self.nodes.entries()); }
        n
    }

    /// Number of healthy nodes.
    pub fn healthy_node_count(&self) -> (r: usize)
        ensures
            r == self.healthy_set().len(),
    {
        self.healthy.len()
    }

    /// The known nodes not seen for longer than the node timeout at time
    /// `now`.
    pub fn timed_out_nodes(&self, now: u64) -> (r: Vec<NodeId>)
        ensures
            forall|n: NodeId| r@.contains(n) <==> (self.node_map().contains_key(n.0)
                && stale(now, self.node_map()[n.0].last_seen, timeout_millis(self.config_view()))),
    {
        let timeout_ms = duration_as_millis(&self.config.node_timeout) as u64;
        let n = self.nodes.len();
        let ghost order = self.node_order();
        let mut out: Vec<NodeId> = Vec::new();
        let mut i: usize = 0;
        while i < n
            invariant
                n == order.len(),
                order == self.node_order(),
                i <= n,
                timeout_ms == timeout_millis(self.config_view()),
                forall|m: NodeId| out@.contains(m) <==> exists|j: int| 0 <= j < i && order[j].0 == m.0
                    && #[trigger] stale(now, order[j].1.last_seen, timeout_ms) && m == NodeId(order[j].0),
            decreases n - i,
        {
            let last_seen = self.nodes.value_at(i).last_seen;
            let k = self.nodes.key_at(i);
            let ghost before = out@;
            if now.saturating_sub(last_seen) > timeout_ms {
                out.push(NodeId(k));
            }
            proof {
                assert forall|m: NodeId| out@.contains(m) <==> exists|j: int| 0 <= j < i + 1 && order[j].0 == m.0
                    && #[trigger] stale(now, order[j].1.last_seen, timeout_ms) && m == NodeId(order[j].0) by {
                    if out@.contains(m) && !before.contains(m) {
                        assert(stale(now, order[i as int].1.last_seen, timeout_ms));
                    }
                    if before.contains(m) {
                        let j = choose|j: int| 0 <= j < i && order[j].0 == m.0
                            && #[trigger] stale(now, order[j].1.last_seen, timeout_ms) && m == NodeId(order[j].0);
                        assert(out@.contains(m)) by {
                            let x = choose|x: int| 0 <= x < before.len() && before[x] == m;
                            assert(out@[x] == m);
                        }
                    }
                    if exists|j: int| 0 <= j < i + 1 && order[j].0 == m.0
                        && #[trigger] stale(now, order[j].1.last_seen, timeout_ms) && m == NodeId(order[j].0) {
                        let j = choose|j: int| 0 <= j < i + 1 && order[j].0 == m.0
                            && #[trigger] stale(now, order[j].1.last_seen, timeout_ms) && m == NodeId(order[j].0);
                        if j == i {
                            assert(out@[out@.len() - 1] == m);
                        } else {
                            assert(before.contains(m));
                            let x = choose|x: int| 0 <= x < before.len() && before[x] == m;
                            assert(out@[x] == m);
                        }
                    }
                }
            }
            i = i + 1;
        }
        proof {
            assert forall|m: NodeId| out@.contains(m) <==> (self.node_map().contains_key(m.0)
                && stale(now, self.node_map()[m.0].last_seen, timeout_millis(self.config_view()))) by {
                crate::table::lemma_entries_dom(order, m.0);
                if out@.contains(m) {
                    let j = choose|j: int| 0 <= j < n && order[j].0 == m.0
                        && #[trigger] stale(now, order[j].1.last_seen, timeout_ms) && m == NodeId(order[j].0);
                    crate::table::lemma_entries_at(order, j);
                }
                if self.node_map().contains_key(m.0)
                    && stale(now, self.node_map()[m.0].last_seen, timeout_millis(self.config_view())) {
                    let j = choose|j: int| 0 <= j < order.len() && order[j].0 == m.0;
                    crate::table::lemma_entries_at(order, j);
                    assert(stale(now, order[j].1.last_seen, timeout_ms));
                }
            }
        }
        out
    }

    /// The known nodes not seen for longer than the node timeout at time
    /// `now`.
    pub open spec fn stale_nodes(&self, now: u64) -> Set<NodeId> {
        Set::new(|n: NodeId| self.node_map().contains_key(n.0)
            && stale(now, self.node_map()[n.0].last_seen, timeout_millis(self.config_view())))
    }

    /// What a health check at time `now` does: the nodes stale at `now` are
    /// reported unhealthy, so they leave the healthy set and are last seen
    /// at `now`; the other nodes and the configuration stay as they were.
    pub open spec fn checked_at(before: TopologyManager, after: TopologyManager, now: u64) -> bool {
        &&& after.wf()
        &&& after.config_view() == before.config_view()
        &&& after.healthy_set() == before.healthy_set().difference(before.stale_nodes(now))
        &&& after.node_map().dom() == before.node_map().dom()
        &&& forall|k: u128| #[trigger] after.node_map().contains_key(k) ==> after.node_map()[k]
            == if before.stale_nodes(now).contains(NodeId(k)) {
                NodeInfo { last_seen: now, ..before.node_map()[k] }
            } else {
                before.node_map()[k]
            }
    }

    /// Marks unhealthy, at time `now`, every known node not seen for
    /// longer than the node timeout.
    pub fn health_check_at(&mut self, now: u64) -> (r: Result<(), LeaderError>)
        requires
            old(self).wf(),
        ensures
            r is Ok,
            TopologyManager::checked_at(*old(self), *final(self), now),
    {
        let stale_nodes = self.timed_out_nodes(now);
        let ghost gone = old(self).stale_nodes(now);
        let ghost om = old(self).node_map();
        let mut i: usize = 0;
        while i < stale_nodes.len()
            invariant
                self.wf(),
                i <= stale_nodes@.len(),
                om == old(self).node_map(),
                gone == old(self).stale_nodes(now),
                forall|n: NodeId| stale_nodes@.contains(n) <==> gone.contains(n),
                self.config_view() == old(self).config_view(),
                self.node_map().dom() == om.dom(),
                self.healthy_set() == old(self).healthy_set().difference(stale_nodes@.take(i as int).to_set()),
                forall|k: u128| #[trigger] self.node_map().contains_key(k) ==> self.node_map()[k]
                    == if stale_nodes@.take(i as int).contains(NodeId(k)) {
                        NodeInfo { last_seen: now, ..om[k] }
                    } else {
                        om[k]
                    },
            decreases stale_nodes@.len() - i,
        {
            let ghost before = self.healthy_set();
            let ghost bm = self.node_map();
            let node = stale_nodes[i];
            proof {
                assert(stale_nodes@.contains(node));
                assert(gone.contains(node));
            }
            self.update_node_health_at(node, false, now)?;
            proof {
                assert(stale_nodes@.take(i + 1) =~= stale_nodes@.take(i as int).push(node));
                stale_nodes@.take(i as int).lemma_push_to_set_commute(node);
                assert(self.healthy_set() =~= before.remove(node));
                assert(self.healthy_set() =~= old(self).healthy_set().difference(stale_nodes@.take(i + 1).to_set()));
                assert forall|k: u128| #[trigger] self.node_map().contains_key(k) implies self.node_map()[k]
                    == if stale_nodes@.take(i + 1).contains(NodeId(k)) {
                        NodeInfo { last_seen: now, ..om[k] }
                    } else {
                        om[k]
                    } by {
                    if k == node.0 {
                        assert(NodeId(k) == node);
                        assert(stale_nodes@.take(i + 1).contains(node)) by {
                            assert(stale_nodes@.take(i + 1)[i as int] == node);
                        }
                        assert(bm.contains_key(k));
                    } else {
                        assert(bm.contains_key(k));
                        assert(self.node_map()[k] == bm[k]);
                        assert(stale_nodes@.take(i + 1).contains(NodeId(k)) == stale_nodes@.take(i as int).contains(NodeId(k))) by {
                            if stale_nodes@.take(i + 1).contains(NodeId(k)) {
                                let x = choose|x: int| 0 <= x < i + 1 && #[trigger] stale_nodes@.take(i + 1)[x] == NodeId(k);
                                assert(x < i);
                                assert(stale_nodes@.take(i as int)[x] == NodeId(k));
                            }
                            if stale_nodes@.take(i as int).contains(NodeId(k)) {
                                let x = choose|x: int| 0 <= x < i && #[trigger] stale_nodes@.take(i as int)[x] == NodeId(k);
                                assert(stale_nodes@.take(i + 1)[x] == NodeId(k));
                            }
                        }
                    }
                }
            }
            i = i + 1;
        }
        proof {
            assert(stale_nodes@.take(stale_nodes@.len() as int) =~= stale_nodes@);
            assert(stale_nodes@.to_set() =~= gone);
            assert(self.healthy_set() =~= old(self).healthy_set().difference(gone));
        }
        Ok(())
    }

    /// Marks unhealthy every known node not seen for longer than the node
    /// timeout, at the present time. The time read is not known, so the
    /// contract says the check is the one at some time.
    pub fn health_check(&mut self) -> (r: Result<(), LeaderError>)
        requires
            old(self).wf(),
        ensures
            r is Ok,
            final(self).wf(),
            exists|now: u64| #[trigger] TopologyManager::checked_at(*old(self), *final(self), now),
    {
        let now = unix_time_millis();
        let r = self.health_check_at(now);
        assert(TopologyManager::checked_at(*old(self), *self, now));
        r
    }

    /// The counters.
    pub fn get_stats(&self) -> (r: TopologyStats)
        ensures
            r == self.stats_view(),
    {
        self.stats
    }
}

/// The node timeout is read in milliseconds: a node is stale exactly when
/// more time has passed since it was last seen than the length of the node
/// timeout, that is when the elapsed milliseconds, in nanoseconds, exceed
/// the timeout's nanoseconds. (The statement leaves out timeouts too long
/// for their milliseconds to fit in 64 bits.)
pub proof fn lemma_stale_after_node_timeout(config: TopologyConfig, now: u64, last_seen: u64)
    requires
        duration_nanos(config.node_timeout) / 1_000_000 <= u64::MAX,
    ensures
        stale(now, last_seen, timeout_millis(config))
            <==> (if now >= last_seen { now - last_seen } else { 0 }) * 1_000_000 > duration_nanos(config.node_timeout),
{
    let t = duration_nanos(config.node_timeout);
    let q = t / 1_000_000;
    let e: int = if now >= last_seen { now - last_seen } else { 0 };
    assert(timeout_millis(config) == q);
    assert(t == 1_000_000 * q + t % 1_000_000 && 0 <= t % 1_000_000 < 1_000_000) by {
        vstd::arithmetic::div_mod::lemma_fundamental_div_mod(t as int, 1_000_000);
        vstd::arithmetic::div_mod::lemma_mod_bound(t as int, 1_000_000);
    }
    assert(e > q <==> e * 1_000_000 > t) by (nonlinear_arith)
        requires
            t == 1_000_000 * q + t % 1_000_000,
            0 <= t % 1_000_000 < 1_000_000,
            e >= 0,
            q >= 0,
    {
    }
}

/// Which known nodes a check at `now` reports: exactly those whose elapsed
/// time since they were last seen exceeds the node timeout (within the
/// same bound on the timeout).
pub proof fn lemma_stale_nodes_by_timeout(mgr: TopologyManager, now: u64, n: NodeId)
    requires
        duration_nanos(mgr.config_view().node_timeout) / 1_000_000 <= u64::MAX,
    ensures
        mgr.stale_nodes(now).contains(n) <==> (mgr.node_map().contains_key(n.0) && {
            let seen = mgr.node_map()[n.0].last_seen;
            (if now >= seen { now - seen } else { 0 }) * 1_000_000 > duration_nanos(mgr.config_view().node_timeout)
        }),
{
    if mgr.node_map().contains_key(n.0) {
        lemma_stale_after_node_timeout(mgr.config_view(), now, mgr.node_map()[n.0].last_seen);
    }
}

} // verus!
