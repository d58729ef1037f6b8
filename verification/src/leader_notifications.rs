//! Notifications of leadership, topology and consensus changes, and the
//! filters that select them.

use vstd::prelude::*;
use crate::types::{NodeId, ConsensusState};
use crate::topology::NodeAddress;

verus! {

/// A change of leadership.
#[derive(Debug, Clone)]
pub enum LeadershipChange {
    /// A new leader has been elected
    LeaderElected { node_id: NodeId, term: u64, timestamp: u64 },
    /// Current leader has stepped down
    LeaderSteppedDown { node_id: NodeId, term: u64, reason: String, timestamp: u64 },
    /// Leadership election has started
    ElectionStarted { election_id: u128, term: u64, timestamp: u64 },
    /// Leadership election has completed
    ElectionCompleted { election_id: u128, winner: Option<NodeId>, term: u64, timestamp: u64 },
    /// Heartbeat from current leader
    LeaderHeartbeat { leader_id: NodeId, term: u64, timestamp: u64 },
}

/// A change of the cluster's membership or health.
#[derive(Debug, Clone)]
pub enum TopologyChange {
    /// A node has joined the cluster
    NodeJoined { node_id: NodeId, address: NodeAddress, timestamp: u64 },
    /// A node has left the cluster
    NodeLeft { node_id: NodeId, reason: String, timestamp: u64 },
    /// A node's health status has changed
    NodeHealthChanged { node_id: NodeId, is_healthy: bool, reason: String, timestamp: u64 },
    /// Cluster topology has been updated
    TopologyUpdated { version: u64, node_count: usize, healthy_count: usize, timestamp: u64 },
    /// Cluster quorum status has changed
    QuorumChanged { has_quorum: bool, healthy_nodes: usize, required_nodes: usize, timestamp: u64 },
}

/// A change of a node's consensus state.
#[derive(Debug, Clone)]
pub enum ConsensusChange {
    /// Consensus state has appeared/started
    ConsensusAppeared { node_id: NodeId, state: ConsensusState, timestamp: u64 },
    /// Consensus state has disappeared/stopped
    ConsensusDisappeared { node_id: NodeId, reason: String, timestamp: u64 },
    /// Consensus state has changed
    ConsensusStateChanged { node_id: NodeId, old_state: ConsensusState, new_state: ConsensusState, timestamp: u64 },
}

/// A notification of the leader manager.
#[derive(Debug, Clone)]
pub enum LeaderNotification {
    Leadership(LeadershipChange),
    Topology(TopologyChange),
    Consensus(ConsensusChange),
}

/// Which notifications a subscriber wants.
#[derive(Debug, Clone, Copy, PartialEq, Eq, Structural)]
pub enum NotificationFilter {
    /// Subscribe to all notifications
    All,
    /// Subscribe to leadership changes only
    Leadership,
    /// Subscribe to topology changes only
    Topology,
    /// Subscribe to consensus changes only
    Consensus,
    /// Subscribe to notifications for specific node
    Node(NodeId),
}

/// Counters of notification delivery.
#[derive(Debug, Default, Clone, Copy)]
pub struct NotificationStats {
    pub notifications_sent: u64,
    pub notifications_delivered: u64,
    pub notifications_dropped: u64,
    pub active_subscriptions: usize,
    pub total_subscriptions: u64,
}

/// Whether `n` concerns `node`: an election, a step-down or a heartbeat of
/// that node, its joining, leaving or change of health, or a change of its
/// consensus state.
pub open spec fn involves(n: LeaderNotification, node: NodeId) -> bool {
    match n {
        LeaderNotification::Leadership(c) => match c {
            LeadershipChange::LeaderElected { node_id, .. } => node_id == node,
            LeadershipChange::LeaderSteppedDown { node_id, .. } => node_id == node,
            LeadershipChange::LeaderHeartbeat { leader_id, .. } => leader_id == node,
            _ => false,
        },
        LeaderNotification::Topology(c) => match c {
            TopologyChange::NodeJoined { node_id, .. } => node_id == node,
            TopologyChange::NodeLeft { node_id, .. } => node_id == node,
            TopologyChange::NodeHealthChanged { node_id, .. } => node_id == node,
            _ => false,
        },
        LeaderNotification::Consensus(c) => match c {
            ConsensusChange::ConsensusAppeared { node_id, .. } => node_id == node,
            ConsensusChange::ConsensusDisappeared { node_id, .. } => node_id == node,
            ConsensusChange::ConsensusStateChanged { node_id, .. } => node_id == node,
        },
    }
}

/// Whether `f` selects `n`.
pub open spec fn selects(f: NotificationFilter, n: LeaderNotification) -> bool {
    match f {
        NotificationFilter::All => true,
        NotificationFilter::Leadership => n is Leadership,
        NotificationFilter::Topology => n is Topology,
        NotificationFilter::Consensus => n is Consensus,
        NotificationFilter::Node(node) => involves(n, node),
    }
}

impl LeaderNotification {
    /// Whether the notification concerns `node`.
    pub fn involves_node(&self, node: NodeId) -> (r: bool)
        ensures
            r == involves(*self, node),
    {
        match self {
            LeaderNotification::Leadership(change) => match change {
                LeadershipChange::LeaderElected { node_id, .. } => *node_id == node,
                LeadershipChange::LeaderSteppedDown { node_id, .. } => *node_id == node,
                LeadershipChange::LeaderHeartbeat { leader_id, .. } => *leader_id == node,
                _ => false,
            },
            LeaderNotification::Topology(change) => match change {
                TopologyChange::NodeJoined { node_id, .. } => *node_id == node,
                TopologyChange::NodeLeft { node_id, .. } => *node_id == node,
                TopologyChange::NodeHealthChanged { node_id, .. } => *node_id == node,
                _ => false,
            },
            LeaderNotification::Consensus(change) => match change {
                ConsensusChange::ConsensusAppeared { node_id, .. } => *node_id == node,
                ConsensusChange::ConsensusDisappeared { node_id, .. } => *node_id == node,
                ConsensusChange::ConsensusStateChanged { node_id, .. } => *node_id == node,
            },
        }
    }

    /// `node_id` was elected leader for `term`.
    pub fn leadership_gained(node_id: NodeId, term: u64, timestamp: u64) -> (r: LeaderNotification)
        ensures
            r == LeaderNotification::Leadership(LeadershipChange::LeaderElected { node_id, term, timestamp }),
    {
        LeaderNotification::Leadership(LeadershipChange::LeaderElected { node_id, term, timestamp })
    }

    /// `node_id` stepped down from leading `term`, gracefully.
    pub fn leadership_lost(node_id: NodeId, term: u64, timestamp: u64) -> (r: LeaderNotification)
        ensures
            r matches LeaderNotification::Leadership(LeadershipChange::LeaderSteppedDown { node_id: n, term: t, reason, timestamp: ts })
                && n == node_id && t == term && ts == timestamp && reason@ == "Stepped down gracefully"@,
    {
        LeaderNotification::Leadership(LeadershipChange::LeaderSteppedDown {
            node_id,
            term,
            reason: "Stepped down gracefully".to_owned(),
            timestamp,
        })
    }

    /// Election `election_id` for `term` started.
    pub fn election_started(election_id: u128, term: u64, timestamp: u64) -> (r: LeaderNotification)
        ensures
            r == LeaderNotification::Leadership(LeadershipChange::ElectionStarted { election_id, term, timestamp }),
    {
        LeaderNotification::Leadership(LeadershipChange::ElectionStarted { election_id, term, timestamp })
    }

    /// The leader `leader_id` of `term` is alive.
    pub fn heartbeat(leader_id: NodeId, term: u64, timestamp: u64) -> (r: LeaderNotification)
        ensures
            r == LeaderNotification::Leadership(LeadershipChange::LeaderHeartbeat { leader_id, term, timestamp }),
    {
        LeaderNotification::Leadership(LeadershipChange::LeaderHeartbeat { leader_id, term, timestamp })
    }

    /// `node_id` joined at `address`.
    pub fn node_joined(node_id: NodeId, address: NodeAddress, timestamp: u64) -> (r: LeaderNotification)
        ensures
            r == LeaderNotification::Topology(TopologyChange::NodeJoined { node_id, address, timestamp }),
    {
        LeaderNotification::Topology(TopologyChange::NodeJoined { node_id, address, timestamp })
    }

    /// `node_id` left, for `reason`.
    pub fn node_left(node_id: NodeId, reason: String, timestamp: u64) -> (r: LeaderNotification)
        ensures
            r == LeaderNotification::Topology(TopologyChange::NodeLeft { node_id, reason, timestamp }),
    {
        LeaderNotification::Topology(TopologyChange::NodeLeft { node_id, reason, timestamp })
    }

    /// The health of `node_id` changed to `is_healthy`, for `reason`.
    pub fn node_health_changed(node_id: NodeId, is_healthy: bool, reason: String, timestamp: u64) -> (r: LeaderNotification)
        ensures
            r == LeaderNotification::Topology(TopologyChange::NodeHealthChanged { node_id, is_healthy, reason, timestamp }),
    {
        LeaderNotification::Topology(TopologyChange::NodeHealthChanged { node_id, is_healthy, reason, timestamp })
    }

    /// Whether the cluster has a quorum changed.
    pub fn quorum_changed(has_quorum: bool, healthy_nodes: usize, required_nodes: usize, timestamp: u64) -> (r: LeaderNotification)
        ensures
            r == LeaderNotification::Topology(TopologyChange::QuorumChanged { has_quorum, healthy_nodes, required_nodes, timestamp }),
    {
        LeaderNotification::Topology(TopologyChange::QuorumChanged { has_quorum, healthy_nodes, required_nodes, timestamp })
    }

    /// `node_id` appeared in consensus with `state`.
    pub fn consensus_appeared(node_id: NodeId, state: ConsensusState, timestamp: u64) -> (r: LeaderNotification)
        ensures
            r == LeaderNotification::Consensus(ConsensusChange::ConsensusAppeared { node_id, state, timestamp }),
    {
        LeaderNotification::Consensus(ConsensusChange::ConsensusAppeared { node_id, state, timestamp })
    }

    /// `node_id` left consensus, for `reason`.
    pub fn consensus_disappeared(node_id: NodeId, reason: String, timestamp: u64) -> (r: LeaderNotification)
        ensures
            r == LeaderNotification::Consensus(ConsensusChange::ConsensusDisappeared { node_id, reason, timestamp }),
    {
        LeaderNotification::Consensus(ConsensusChange::ConsensusDisappeared { node_id, reason, timestamp })
    }

    /// The consensus state of `node_id` is now `state`; the old state is
    /// reported as `Idle`, as it is not tracked.
    pub fn consensus_state_changed(node_id: NodeId, state: ConsensusState, timestamp: u64) -> (r: LeaderNotification)
        ensures
            r == LeaderNotification::Consensus(ConsensusChange::ConsensusStateChanged {
                node_id, old_state: ConsensusState::Idle, new_state: state, timestamp }),
    {
        LeaderNotification::Consensus(ConsensusChange::ConsensusStateChanged {
            node_id,
            old_state: ConsensusState::Idle,
            new_state: state,
            timestamp,
        })
    }
}

impl NotificationFilter {
    /// Whether the filter selects `notification`.
    pub fn matches(&self, notification: &LeaderNotification) -> (r: bool)
        ensures
            r == selects(*self, *notification),
    {
        match self {
            NotificationFilter::All => true,
            NotificationFilter::Leadership => matches!(notification, LeaderNotification::Leadership(_)),
            NotificationFilter::Topology => matches!(notification, LeaderNotification::Topology(_)),
            NotificationFilter::Consensus => matches!(notification, LeaderNotification::Consensus(_)),
            NotificationFilter::Node(node_id) => notification.involves_node(*node_id),
        }
    }
}

} // verus!
